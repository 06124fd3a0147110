use popsec::tpm2_totp::{hex_string, TotpError};

#[test]
fn recognized_codes_decode_to_their_variants() {
    assert_eq!(TotpError::from_rc(-10), TotpError::NoPasswordProvided);
    assert_eq!(TotpError::from_rc(-20), TotpError::SecretHasNoPassword);
    assert_eq!(TotpError::from_rc(0x14C), TotpError::SecretAlreadyExists);
    assert_eq!(TotpError::from_rc(0x18B), TotpError::SecretNotFound);
    assert_eq!(TotpError::from_rc(0x99D), TotpError::SystemStateChanged);
    assert_eq!(TotpError::from_rc(0x98E), TotpError::WrongPassword);
    assert_eq!(TotpError::from_rc(0x921), TotpError::Lockout);
}

#[test]
fn unknown_codes_degrade_to_other_with_the_raw_value() {
    assert_eq!(
        TotpError::from_rc(0),
        TotpError::Other(String::from("unknown TPM status 0x0"))
    );
    assert_eq!(
        TotpError::from_rc(0x7FFFFFFF),
        TotpError::Other(String::from("unknown TPM status 0x7fffffff"))
    );
    assert_eq!(
        TotpError::from_rc(-30),
        TotpError::Other(String::from("unknown TPM status 0xffffffe2"))
    );
}

#[test]
fn decoding_respects_the_field_masks() {
    // Same error field as the empty-slot code, but flagged as a
    // parameter rather than a handle: not a recognized condition.
    assert_eq!(
        TotpError::from_rc(0x1CB),
        TotpError::Other(String::from("unknown TPM status 0x1cb"))
    );
    // Bits above the twelve format-one bits set: not a recognized
    // condition even though the low bits match.
    assert_eq!(
        TotpError::from_rc(0x118B),
        TotpError::Other(String::from("unknown TPM status 0x118b"))
    );
    // Policy failure on a different session than the sealing policy's.
    assert_eq!(
        TotpError::from_rc(0x29D),
        TotpError::Other(String::from("unknown TPM status 0x29d"))
    );
}

#[test]
fn hex_spelling() {
    assert_eq!(hex_string(0), "0");
    assert_eq!(hex_string(9), "9");
    assert_eq!(hex_string(10), "a");
    assert_eq!(hex_string(0x18B), "18b");
    assert_eq!(hex_string(0xFFFFFFFF), "ffffffff");
    assert_eq!(hex_string(0x10000000), "10000000");
}
