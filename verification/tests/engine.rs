use popsec::tpm2_totp::{TotpError, TotpPass, TotpSecret, Tpm2Totp};

fn pass(s: &str) -> TotpPass {
    TotpPass(String::from(s))
}

fn secret(bytes: &[u8]) -> TotpSecret {
    TotpSecret(bytes.to_vec())
}

// The engine's code derivation, spelled out for expected values.
fn expected_code(bytes: &[u8], window: u64) -> u64 {
    let mut h: u64 = 5381;
    for &b in bytes {
        h = (h * 31 + b as u64) % 0x1_0000_0000;
    }
    (h + window % 1_000_000) % 1_000_000
}

#[test]
fn show_on_empty_slot_is_secret_not_found() {
    let mut tpm = Tpm2Totp::new();
    assert_eq!(tpm.show(0).unwrap_err(), TotpError::SecretNotFound);
    // Never any other variant, whatever the clock says.
    assert_eq!(tpm.show(43217).unwrap_err(), TotpError::SecretNotFound);
    assert_eq!(tpm.show(u64::MAX).unwrap_err(), TotpError::SecretNotFound);
}

#[test]
fn show_after_init_yields_the_window_code() {
    let mut tpm = Tpm2Totp::new();
    let returned = tpm.init(&pass("correct-horse"), secret(&[1, 2, 3])).unwrap();
    assert_eq!(returned.0, vec![1, 2, 3]);
    let code = tpm.show(45).unwrap();
    assert_eq!(code.0, 306398);
    assert_eq!(code.0, expected_code(&[1, 2, 3], 1));
    assert!(code.0 < 1_000_000);
    // Same window, same code; next window, the code moves on.
    assert_eq!(tpm.show(59).unwrap().0, 306398);
    assert_eq!(tpm.show(10).unwrap().0, 306397);
}

#[test]
fn init_on_occupied_slot_is_secret_already_exists() {
    let mut tpm = Tpm2Totp::new();
    tpm.init(&pass("pw"), secret(b"one")).unwrap();
    assert_eq!(
        tpm.init(&pass("pw"), secret(b"two")).unwrap_err(),
        TotpError::SecretAlreadyExists
    );
    // The first secret still answers.
    assert!(tpm.show(0).is_ok());
}

#[test]
fn reseal_after_init_with_same_password_succeeds_and_code_stays_retrievable() {
    let mut tpm = Tpm2Totp::new();
    tpm.init(&pass("correct-horse"), secret(&[9, 8, 7])).unwrap();
    // A legitimate firmware change: the measurements move, show degrades.
    tpm.set_measurements(7);
    assert_eq!(tpm.show(0).unwrap_err(), TotpError::SystemStateChanged);
    // Re-binding with the right password repairs it without changing the code.
    tpm.reseal(&pass("correct-horse")).unwrap();
    assert_eq!(tpm.show(45).unwrap().0, expected_code(&[9, 8, 7], 1));
}

#[test]
fn reseal_with_wrong_password_fails_and_leaves_the_secret_intact() {
    let mut tpm = Tpm2Totp::new();
    tpm.init(&pass("correct-horse"), secret(&[9, 8, 7])).unwrap();
    assert_eq!(
        tpm.reseal(&pass("battery-staple")).unwrap_err(),
        TotpError::WrongPassword
    );
    // The slot was not emptied on the failure path: show still answers.
    assert_eq!(tpm.show(45).unwrap().0, expected_code(&[9, 8, 7], 1));
}

#[test]
fn reseal_error_cases() {
    let mut tpm = Tpm2Totp::new();
    assert_eq!(tpm.reseal(&pass("pw")).unwrap_err(), TotpError::SecretNotFound);

    tpm.init(&pass("pw"), secret(b"s")).unwrap();
    assert_eq!(tpm.reseal(&pass("")).unwrap_err(), TotpError::NoPasswordProvided);

    let mut no_auth = Tpm2Totp::new();
    no_auth.init(&pass(""), secret(b"s")).unwrap();
    assert_eq!(
        no_auth.reseal(&pass("pw")).unwrap_err(),
        TotpError::SecretHasNoPassword
    );
}

#[test]
fn lockout_reports_lockout() {
    let mut tpm = Tpm2Totp::new();
    tpm.init(&pass("pw"), secret(b"s")).unwrap();
    tpm.set_lockout(true);
    assert_eq!(tpm.show(0).unwrap_err(), TotpError::Lockout);
    assert_eq!(tpm.reseal(&pass("pw")).unwrap_err(), TotpError::Lockout);
    tpm.set_lockout(false);
    assert!(tpm.show(0).is_ok());
}

#[test]
fn clean_empties_the_slot() {
    let mut tpm = Tpm2Totp::new();
    tpm.init(&pass("pw"), secret(b"s")).unwrap();
    tpm.clean().unwrap();
    assert_eq!(tpm.show(0).unwrap_err(), TotpError::SecretNotFound);
    assert_eq!(tpm.clean().unwrap_err(), TotpError::SecretNotFound);
}

#[test]
fn recover_hands_the_secret_back_under_the_password() {
    let mut tpm = Tpm2Totp::new();
    tpm.init(&pass("correct-horse"), secret(&[4, 5, 6])).unwrap();
    assert_eq!(tpm.recover(&pass("correct-horse")).unwrap().0, vec![4, 5, 6]);
    assert_eq!(
        tpm.recover(&pass("battery-staple")).unwrap_err(),
        TotpError::WrongPassword
    );
    // Recover is non-destructive.
    assert!(tpm.show(0).is_ok());
}
