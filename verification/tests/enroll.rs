use popsec::enroll::{enroll_label, otpauth_url, otpauth_url_labeled};
use popsec::tpm2_totp::{TotpPass, TotpSecret, Tpm2Totp};

#[test]
fn labeled_url_has_the_documented_form() {
    let secret = TotpSecret(b"hello".to_vec());
    let url = otpauth_url_labeled("myhost TPM2-TOTP", &secret);
    assert_eq!(url.0, "otpauth://totp/myhost TPM2-TOTP?secret=NBSWY3DP");
}

#[test]
fn url_secret_decodes_back_to_the_original_bytes() {
    // Enrollment scenario: initialize with a password, then check that
    // the URL carries a base32 string that decodes to the secret.
    let mut tpm = Tpm2Totp::new();
    let bytes: Vec<u8> = vec![0xDE, 0xAD, 0xBE, 0xEF, 0x01, 0x23, 0x45];
    let returned = tpm
        .init(&TotpPass(String::from("correct-horse")), TotpSecret(bytes.clone()))
        .unwrap();
    let url = otpauth_url_labeled("host TPM2-TOTP", &returned);

    let marker = "?secret=";
    let at = url.0.find(marker).expect("the URL carries a secret part");
    let b32 = &url.0[at + marker.len()..];
    assert!(!b32.is_empty());
    assert!(b32.chars().all(|c| c.is_ascii_alphanumeric()));
    let decoded = base32::decode(base32::Alphabet::Rfc4648 { padding: false }, b32)
        .expect("the secret part is valid base32");
    assert_eq!(decoded, bytes);
}

#[test]
fn empty_secret_gives_an_empty_base32_part() {
    let url = otpauth_url_labeled("host TPM2-TOTP", &TotpSecret(Vec::new()));
    assert_eq!(url.0, "otpauth://totp/host TPM2-TOTP?secret=");
}

#[test]
fn the_label_carries_the_host_name_when_known() {
    assert_eq!(enroll_label(Some(String::from("myhost"))), "myhost TPM2-TOTP");
    assert_eq!(enroll_label(None), "TPM2-TOTP");
}

#[test]
fn the_url_label_is_bound_to_the_host_name() {
    let secret = TotpSecret(b"hello".to_vec());
    let url = otpauth_url(Some(String::from("myhost")), &secret);
    assert_eq!(url.0, "otpauth://totp/myhost TPM2-TOTP?secret=NBSWY3DP");
    let url = otpauth_url(None, &secret);
    assert_eq!(url.0, "otpauth://totp/TPM2-TOTP?secret=NBSWY3DP");
}
