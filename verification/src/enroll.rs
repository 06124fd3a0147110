//! Building the enrollment URL for a freshly created secret: the
//! `otpauth://totp/` form that authenticator apps scan, with the secret
//! bytes in unpadded base32 and the host's name in the label.
use vstd::prelude::*;

use crate::tpm2_totp::{TotpAuth, TotpSecret};

verus! {

/// The unpadded RFC 4648 base32 spelling of a byte string.
pub uninterp spec fn base32_nopad(bytes: Seq<u8>) -> Seq<char>;

/// Relies on base32::encode with the RFC 4648 alphabet and no padding:
/// the result is a function of the input bytes alone, eight characters
/// for every five bytes, the last group shortened to match.
#[verifier::external_body]
fn base32_encode(bytes: &Vec<u8>) -> (r: String)
    ensures
        r@ == base32_nopad(bytes@),
        r@.len() == (bytes@.len() * 8 + 4) / 5,
{
    base32::encode(base32::Alphabet::Rfc4648 { padding: false }, bytes.as_slice())
}

/// The label under which the secret is enrolled: the host's name, when
/// one is known, for disambiguation.
pub open spec fn label_of(hostname: Option<String>) -> Seq<char> {
    match hostname {
        Some(h) => h@ + " TPM2-TOTP"@,
        None => "TPM2-TOTP"@,
    }
}

/// Builds the enrollment label from the machine's host name, when one is
/// known. Reading the host name is the caller's affair.
pub fn enroll_label(hostname: Option<String>) -> (r: String)
    ensures
        r@ == label_of(hostname),
{
    match hostname {
        Some(mut h) => {
            h.append(" TPM2-TOTP");
            h
        },
        None => String::from_str("TPM2-TOTP"),
    }
}

/// The full enrollment URL for a label and the secret bytes.
pub open spec fn url_of(label: Seq<char>, bytes: Seq<u8>) -> Seq<char> {
    "otpauth://totp/"@ + label + "?secret="@ + base32_nopad(bytes)
}

/// Builds the enrollment URL under the given label.
pub fn otpauth_url_labeled(label: &str, secret: &TotpSecret) -> (r: TotpAuth)
    ensures
        r.0@ == url_of(label@, secret.0@),
{
    let mut url = String::from_str("otpauth://totp/");
    url.append(label);
    url.append("?secret=");
    url.append(base32_encode(&secret.0).as_str());
    TotpAuth(url)
}

/// Builds the enrollment URL for a fresh secret, labeled for the given
/// host name.
pub fn otpauth_url(hostname: Option<String>, secret: &TotpSecret) -> (r: TotpAuth)
    ensures
        r.0@ == url_of(label_of(hostname), secret.0@),
{
    let label = enroll_label(hostname);
    otpauth_url_labeled(label.as_str(), secret)
}

} // verus!
