//! Lossless two-way mapping between the error taxonomy and its wire form:
//! a fixed, globally unique name under the reserved namespace, plus a
//! human-readable message. The reverse direction reconstructs the exact
//! variant from the name alone and falls back to `Other` carrying the
//! message verbatim when the name is unrecognized.
use vstd::prelude::*;

use crate::tpm2_totp::TotpError;

verus! {

/// The fixed wire name of each error variant.
pub open spec fn name_of(e: TotpError) -> Seq<char> {
    match e {
        TotpError::NoPasswordProvided => "com.system76.PopSec.Error.NoPasswordProvided"@,
        TotpError::SecretHasNoPassword => "com.system76.PopSec.Error.SecretHasNoPassword"@,
        TotpError::SecretAlreadyExists => "com.system76.PopSec.Error.SecretAlreadyExists"@,
        TotpError::SecretNotFound => "com.system76.PopSec.Error.SecretNotFound"@,
        TotpError::SystemStateChanged => "com.system76.PopSec.Error.SystemStateChanged"@,
        TotpError::WrongPassword => "com.system76.PopSec.Error.WrongPassword"@,
        TotpError::Lockout => "com.system76.PopSec.Error.Lockout"@,
        TotpError::Other(_) => "com.system76.PopSec.Error.Other"@,
    }
}

/// The error a wire name reconstructs to: the exact variant for a
/// recognized name, `Other` carrying the message for everything else.
pub open spec fn from_name_spec(name: Seq<char>, message: String) -> TotpError {
    if name == "com.system76.PopSec.Error.NoPasswordProvided"@ {
        TotpError::NoPasswordProvided
    } else if name == "com.system76.PopSec.Error.SecretHasNoPassword"@ {
        TotpError::SecretHasNoPassword
    } else if name == "com.system76.PopSec.Error.SecretAlreadyExists"@ {
        TotpError::SecretAlreadyExists
    } else if name == "com.system76.PopSec.Error.SecretNotFound"@ {
        TotpError::SecretNotFound
    } else if name == "com.system76.PopSec.Error.SystemStateChanged"@ {
        TotpError::SystemStateChanged
    } else if name == "com.system76.PopSec.Error.WrongPassword"@ {
        TotpError::WrongPassword
    } else if name == "com.system76.PopSec.Error.Lockout"@ {
        TotpError::Lockout
    } else {
        TotpError::Other(message)
    }
}

/// Whether a wire name belongs to the reserved error namespace, the
/// catch-all `Other` name included. Names outside this set come from the
/// transport itself, not from the engine.
pub open spec fn is_domain_name(name: Seq<char>) -> bool {
    ||| name == "com.system76.PopSec.Error.NoPasswordProvided"@
    ||| name == "com.system76.PopSec.Error.SecretHasNoPassword"@
    ||| name == "com.system76.PopSec.Error.SecretAlreadyExists"@
    ||| name == "com.system76.PopSec.Error.SecretNotFound"@
    ||| name == "com.system76.PopSec.Error.SystemStateChanged"@
    ||| name == "com.system76.PopSec.Error.WrongPassword"@
    ||| name == "com.system76.PopSec.Error.Lockout"@
    ||| name == "com.system76.PopSec.Error.Other"@
}

/// The fixed human-readable message of each variant; `Other` carries its
/// own text.
pub open spec fn message_of(e: TotpError) -> Seq<char> {
    match e {
        TotpError::NoPasswordProvided => "No recovery password for the TOTP secret was given"@,
        TotpError::SecretHasNoPassword => "The TOTP secret has not been stored with a recovery password and thus cannot be retrieved"@,
        TotpError::SecretAlreadyExists => "A TOTP secret is already stored"@,
        TotpError::SecretNotFound => "No TOTP secret is currently stored"@,
        TotpError::SystemStateChanged => "The system state has changed, no TOTP could be calculated"@,
        TotpError::WrongPassword => "Wrong recovery password for the TOTP secret"@,
        TotpError::Lockout => "The password has been entered wrongly too many times and the TPM is in lockout mode"@,
        TotpError::Other(m) => m@,
    }
}

/// Character-for-character string comparison.
pub fn str_eq(a: &str, b: &str) -> (r: bool)
    ensures
        r == (a@ == b@),
{
    let alen = a.unicode_len();
    let blen = b.unicode_len();
    if alen != blen {
        return false;
    }
    let mut i: usize = 0;
    while i < alen
        invariant
            i <= alen,
            alen as nat == a@.len(),
            alen as nat == b@.len(),
            forall|j: int| 0 <= j < i ==> a@[j] == b@[j],
        decreases alen - i,
    {
        if a.get_char(i) != b.get_char(i) {
            return false;
        }
        i += 1;
    }
    proof {
        assert(a@ =~= b@);
    }
    true
}

/// The wire name of an error.
pub fn to_name(e: &TotpError) -> (r: &'static str)
    ensures
        r@ == name_of(*e),
{
    match e {
        TotpError::NoPasswordProvided => "com.system76.PopSec.Error.NoPasswordProvided",
        TotpError::SecretHasNoPassword => "com.system76.PopSec.Error.SecretHasNoPassword",
        TotpError::SecretAlreadyExists => "com.system76.PopSec.Error.SecretAlreadyExists",
        TotpError::SecretNotFound => "com.system76.PopSec.Error.SecretNotFound",
        TotpError::SystemStateChanged => "com.system76.PopSec.Error.SystemStateChanged",
        TotpError::WrongPassword => "com.system76.PopSec.Error.WrongPassword",
        TotpError::Lockout => "com.system76.PopSec.Error.Lockout",
        TotpError::Other(_) => "com.system76.PopSec.Error.Other",
    }
}

/// Reconstructs an error from its wire name and message.
pub fn from_name(name: &str, message: String) -> (e: TotpError)
    ensures
        e == from_name_spec(name@, message),
{
    if str_eq(name, "com.system76.PopSec.Error.NoPasswordProvided") {
        TotpError::NoPasswordProvided
    } else if str_eq(name, "com.system76.PopSec.Error.SecretHasNoPassword") {
        TotpError::SecretHasNoPassword
    } else if str_eq(name, "com.system76.PopSec.Error.SecretAlreadyExists") {
        TotpError::SecretAlreadyExists
    } else if str_eq(name, "com.system76.PopSec.Error.SecretNotFound") {
        TotpError::SecretNotFound
    } else if str_eq(name, "com.system76.PopSec.Error.SystemStateChanged") {
        TotpError::SystemStateChanged
    } else if str_eq(name, "com.system76.PopSec.Error.WrongPassword") {
        TotpError::WrongPassword
    } else if str_eq(name, "com.system76.PopSec.Error.Lockout") {
        TotpError::Lockout
    } else {
        TotpError::Other(message)
    }
}

/// Whether a wire name belongs to the reserved error namespace.
pub fn is_error_name(name: &str) -> (r: bool)
    ensures
        r == is_domain_name(name@),
{
    if str_eq(name, "com.system76.PopSec.Error.Other") {
        return true;
    }
    let e = from_name(name, String::new());
    match e {
        TotpError::Other(_) => false,
        _ => true,
    }
}

/// The human-readable message of an error.
pub fn error_message(e: &TotpError) -> (r: String)
    ensures
        r@ == message_of(*e),
{
    match e {
        TotpError::NoPasswordProvided => String::from_str("No recovery password for the TOTP secret was given"),
        TotpError::SecretHasNoPassword => String::from_str("The TOTP secret has not been stored with a recovery password and thus cannot be retrieved"),
        TotpError::SecretAlreadyExists => String::from_str("A TOTP secret is already stored"),
        TotpError::SecretNotFound => String::from_str("No TOTP secret is currently stored"),
        TotpError::SystemStateChanged => String::from_str("The system state has changed, no TOTP could be calculated"),
        TotpError::WrongPassword => String::from_str("Wrong recovery password for the TOTP secret"),
        TotpError::Lockout => String::from_str("The password has been entered wrongly too many times and the TPM is in lockout mode"),
        TotpError::Other(m) => m.clone(),
    }
}

proof fn lemma_names_distinct()
    ensures
        "com.system76.PopSec.Error.NoPasswordProvided"@.len() == 44,
        "com.system76.PopSec.Error.SecretHasNoPassword"@.len() == 45,
        "com.system76.PopSec.Error.SecretAlreadyExists"@.len() == 45,
        "com.system76.PopSec.Error.SecretNotFound"@.len() == 40,
        "com.system76.PopSec.Error.SystemStateChanged"@.len() == 44,
        "com.system76.PopSec.Error.WrongPassword"@.len() == 39,
        "com.system76.PopSec.Error.Lockout"@.len() == 33,
        "com.system76.PopSec.Error.Other"@.len() == 31,
        "com.system76.PopSec.Error.NoPasswordProvided"@ != "com.system76.PopSec.Error.SystemStateChanged"@,
        "com.system76.PopSec.Error.SecretHasNoPassword"@ != "com.system76.PopSec.Error.SecretAlreadyExists"@,
{
    reveal_strlit("com.system76.PopSec.Error.NoPasswordProvided");
    reveal_strlit("com.system76.PopSec.Error.SecretHasNoPassword");
    reveal_strlit("com.system76.PopSec.Error.SecretAlreadyExists");
    reveal_strlit("com.system76.PopSec.Error.SecretNotFound");
    reveal_strlit("com.system76.PopSec.Error.SystemStateChanged");
    reveal_strlit("com.system76.PopSec.Error.WrongPassword");
    reveal_strlit("com.system76.PopSec.Error.Lockout");
    reveal_strlit("com.system76.PopSec.Error.Other");
    assert("com.system76.PopSec.Error.NoPasswordProvided"@[26] == 'N');
    assert("com.system76.PopSec.Error.SystemStateChanged"@[26] == 'S');
    assert("com.system76.PopSec.Error.SecretHasNoPassword"@[32] == 'H');
    assert("com.system76.PopSec.Error.SecretAlreadyExists"@[32] == 'A');
}

/// Law: for every error but `Other`, the trip through the wire name
/// reproduces exactly the originating variant, whatever message rides
/// along.
pub proof fn lemma_name_round_trip(e: TotpError, message: String)
    requires
        !(e matches TotpError::Other(_)),
    ensures
        from_name_spec(name_of(e), message) == e,
{
    lemma_names_distinct();
}

/// Law: an `Other` error keeps its message exactly across the trip
/// through the wire pair.
pub proof fn lemma_other_round_trip(message: String)
    ensures
        from_name_spec(name_of(TotpError::Other(message)), message) == TotpError::Other(message),
{
    lemma_names_distinct();
}

} // verus!
