//! Domain types of the sealed-secret engine and the decoder that turns raw
//! TPM status codes into the closed error taxonomy.
use vstd::prelude::*;

verus! {

/// A TOTP code, valid only for the current thirty-second window.
#[derive(Debug, Clone, Copy, PartialEq, Eq)]
pub struct TotpCode(pub u64);

/// The operator's recovery password, used transiently and never persisted.
#[derive(Debug, Clone)]
pub struct TotpPass(pub String);

/// Raw secret material, as needed to build an enrollment URL.
#[derive(Debug, Clone, PartialEq, Eq)]
pub struct TotpSecret(pub Vec<u8>);

/// An enrollment URL for external authenticator apps.
#[derive(Debug, Clone, PartialEq, Eq)]
pub struct TotpAuth(pub String);

/// The closed taxonomy of failures of the sealed-secret engine. Every
/// variant but `Other` stands for one recognized condition; `Other`
/// carries diagnostic text for anything unrecognized.
#[derive(Debug, Clone, PartialEq, Eq)]
pub enum TotpError {
    NoPasswordProvided,
    SecretHasNoPassword,
    SecretAlreadyExists,
    SecretNotFound,
    SystemStateChanged,
    WrongPassword,
    Lockout,
    Other(String),
}

// The fixed sealing policy. The secret is bound to PCR 0, 2 and 7 —
// firmware, option ROMs, and the secure-boot state — so that changes to
// any of them are detected; changes to the OS are meant to be caught by
// secure boot itself. Both the SHA-1 and the SHA-256 digest banks are
// selected. The slot is the same NVRAM index the stock command line
// tooling uses, one global singleton per machine.
pub const PCR_SELECTION: u32 = (1 << 0) | (1 << 2) | (1 << 7);

pub const BANK_SELECTION: u32 = (1 << 0) | (1 << 1);

pub const NVRAM_INDEX: u32 = 0x018094AF;

// Status codes of the hardware library. The negative pair are its own
// out-of-band codes; the rest are TPM 2.0 response codes (Part 2,
// "Response Code Details"): TPM2_RC_NV_DEFINED, TPM2_RC_HANDLE with
// handle number 1, TPM2_RC_POLICY_FAIL and TPM2_RC_AUTH_FAIL with
// session number 9, and TPM2_RC_LOCKOUT.
pub const RC_NO_PASSWORD_PROVIDED: i32 = -10;
pub const RC_SECRET_HAS_NO_PASSWORD: i32 = -20;
pub const RC_SECRET_ALREADY_EXISTS: i32 = 0x14C;
pub const RC_SECRET_NOT_FOUND: i32 = 0x18B;
pub const RC_SYSTEM_STATE_CHANGED: i32 = 0x99D;
pub const RC_WRONG_PASSWORD: i32 = 0x98E;
pub const RC_LOCKOUT: i32 = 0x921;

/// Whether a raw status code belongs to one of the recognized conditions.
pub open spec fn known_rc(rc: i32) -> bool {
    ||| rc == RC_NO_PASSWORD_PROVIDED
    ||| rc == RC_SECRET_HAS_NO_PASSWORD
    ||| rc == RC_SECRET_ALREADY_EXISTS
    ||| rc == RC_SECRET_NOT_FOUND
    ||| rc == RC_SYSTEM_STATE_CHANGED
    ||| rc == RC_WRONG_PASSWORD
    ||| rc == RC_LOCKOUT
}

/// The hexadecimal character for one digit value.
pub open spec fn hex_char(d: nat) -> char {
    if d == 0 { '0' } else if d == 1 { '1' } else if d == 2 { '2' }
    else if d == 3 { '3' } else if d == 4 { '4' } else if d == 5 { '5' }
    else if d == 6 { '6' } else if d == 7 { '7' } else if d == 8 { '8' }
    else if d == 9 { '9' } else if d == 10 { 'a' } else if d == 11 { 'b' }
    else if d == 12 { 'c' } else if d == 13 { 'd' } else if d == 14 { 'e' }
    else { 'f' }
}

/// The hexadecimal spelling of a value, most significant digit first,
/// without leading zeros.
pub open spec fn hex_seq(v: nat) -> Seq<char>
    decreases v,
{
    if v < 16 {
        seq![hex_char(v)]
    } else {
        hex_seq(v / 16) + seq![hex_char(v % 16)]
    }
}

/// The 32 bits of a status code, as the hardware hands it over.
pub open spec fn rc_bits(rc: i32) -> u32 {
    if rc >= 0 {
        rc as u32
    } else {
        (rc + 0x1_0000_0000) as u32
    }
}

/// The diagnostic text carried by `TotpError::Other` for a status code
/// outside the recognized set.
pub open spec fn unknown_rc_message(rc: i32) -> Seq<char> {
    "unknown TPM status 0x"@ + hex_seq(rc_bits(rc) as nat)
}

fn hex_digit_str(d: u32) -> (s: &'static str)
    requires
        d < 16,
    ensures
        s@ =~= seq![hex_char(d as nat)],
{
    proof {
        reveal_strlit("0"); reveal_strlit("1"); reveal_strlit("2");
        reveal_strlit("3"); reveal_strlit("4"); reveal_strlit("5");
        reveal_strlit("6"); reveal_strlit("7"); reveal_strlit("8");
        reveal_strlit("9"); reveal_strlit("a"); reveal_strlit("b");
        reveal_strlit("c"); reveal_strlit("d"); reveal_strlit("e");
        reveal_strlit("f");
    }
    match d {
        0 => "0", 1 => "1", 2 => "2", 3 => "3",
        4 => "4", 5 => "5", 6 => "6", 7 => "7",
        8 => "8", 9 => "9", 10 => "a", 11 => "b",
        12 => "c", 13 => "d", 14 => "e", _ => "f",
    }
}

/// Spells a value in hexadecimal, most significant digit first.
pub fn hex_string(v: u32) -> (r: String)
    ensures
        r@ == hex_seq(v as nat),
    decreases v,
{
    if v < 16 {
        String::from_str(hex_digit_str(v))
    } else {
        let mut r = hex_string(v / 16);
        r.append(hex_digit_str(v % 16));
        r
    }
}

impl TotpError {
    /// Decodes a raw hardware status code into the taxonomy. Recognized
    /// codes are matched through the documented response-code fields
    /// (format bit, error field, handle/session number), never by bare
    /// comparison; anything else degrades to `Other` carrying the raw
    /// value in hexadecimal.
    pub fn from_rc(rc: i32) -> (e: TotpError)
        ensures
            (e == TotpError::NoPasswordProvided) <==> rc == RC_NO_PASSWORD_PROVIDED,
            (e == TotpError::SecretHasNoPassword) <==> rc == RC_SECRET_HAS_NO_PASSWORD,
            (e == TotpError::SecretAlreadyExists) <==> rc == RC_SECRET_ALREADY_EXISTS,
            (e == TotpError::SecretNotFound) <==> rc == RC_SECRET_NOT_FOUND,
            (e == TotpError::SystemStateChanged) <==> rc == RC_SYSTEM_STATE_CHANGED,
            (e == TotpError::WrongPassword) <==> rc == RC_WRONG_PASSWORD,
            (e == TotpError::Lockout) <==> rc == RC_LOCKOUT,
            !known_rc(rc) <==> (e matches TotpError::Other(m) && m@ == unknown_rc_message(rc)),
    {
        if rc == RC_NO_PASSWORD_PROVIDED {
            return TotpError::NoPasswordProvided;
        }
        if rc == RC_SECRET_HAS_NO_PASSWORD {
            return TotpError::SecretHasNoPassword;
        }
        if rc >= 0 {
            let c = rc as u32;
            if c & 0x80 != 0 && c <= 0xFFF {
                // Format-one response code: error field in bits 0 to 5,
                // parameter flag in bit 6, handle or session number in
                // bits 8 to 11.
                let field = c & 0x3F;
                let parameter = (c & 0x40) != 0;
                let number = (c >> 8) & 0xF;
                if field == 0x0B && !parameter && number == 1 {
                    // Handle error on handle 1: the NV slot is empty.
                    proof {
                        assert(c == 0x18B) by (bit_vector)
                            requires c & 0x80 != 0 && c <= 0xFFF && c & 0x3F == 0x0B
                                && c & 0x40 == 0 && (c >> 8) & 0xF == 1;
                    }
                    return TotpError::SecretNotFound;
                }
                if field == 0x1D && !parameter && number == 9 {
                    // Policy failure on session 9: the measurements moved.
                    proof {
                        assert(c == 0x99D) by (bit_vector)
                            requires c & 0x80 != 0 && c <= 0xFFF && c & 0x3F == 0x1D
                                && c & 0x40 == 0 && (c >> 8) & 0xF == 9;
                    }
                    return TotpError::SystemStateChanged;
                }
                if field == 0x0E && !parameter && number == 9 {
                    // Authorization failure on session 9: bad password.
                    proof {
                        assert(c == 0x98E) by (bit_vector)
                            requires c & 0x80 != 0 && c <= 0xFFF && c & 0x3F == 0x0E
                                && c & 0x40 == 0 && (c >> 8) & 0xF == 9;
                    }
                    return TotpError::WrongPassword;
                }
                proof {
                    assert(c != 0x18B && c != 0x99D && c != 0x98E && c != 0x14C && c != 0x921) by (bit_vector)
                        requires c & 0x80 != 0 && c <= 0xFFF
                            && !(c & 0x3F == 0x0B && c & 0x40 == 0 && (c >> 8) & 0xF == 1)
                            && !(c & 0x3F == 0x1D && c & 0x40 == 0 && (c >> 8) & 0xF == 9)
                            && !(c & 0x3F == 0x0E && c & 0x40 == 0 && (c >> 8) & 0xF == 9);
                }
            } else {
                proof {
                    assert(c != 0x18B && c != 0x99D && c != 0x98E) by (bit_vector)
                        requires !(c & 0x80 != 0 && c <= 0xFFF);
                }
                if c == 0x14C {
                    return TotpError::SecretAlreadyExists;
                }
                if c == 0x921 {
                    return TotpError::Lockout;
                }
            }
        }
        let bits: u32 = if rc >= 0 {
            rc as u32
        } else {
            let wide: i64 = rc as i64 + 0x1_0000_0000;
            wide as u32
        };
        let mut m = String::from_str("unknown TPM status 0x");
        m.append(hex_string(bits).as_str());
        TotpError::Other(m)
    }

    /// An identical copy.
    pub fn duplicate(&self) -> (r: TotpError)
        ensures
            r == *self,
    {
        match self {
            TotpError::NoPasswordProvided => TotpError::NoPasswordProvided,
            TotpError::SecretHasNoPassword => TotpError::SecretHasNoPassword,
            TotpError::SecretAlreadyExists => TotpError::SecretAlreadyExists,
            TotpError::SecretNotFound => TotpError::SecretNotFound,
            TotpError::SystemStateChanged => TotpError::SystemStateChanged,
            TotpError::WrongPassword => TotpError::WrongPassword,
            TotpError::Lockout => TotpError::Lockout,
            TotpError::Other(m) => TotpError::Other(m.clone()),
        }
    }
}

// ---------------------------------------------------------------------
// The sealed-secret engine. It owns the state of the fixed NVRAM slot:
// at most one sealed secret, bound at seal time to the then-current
// platform measurements and, optionally, to a recovery password. The
// device transport (a hardware session or a helper process) lives
// outside this crate; the engine fixes the lifecycle rules, the order of
// the primitive operations, and the decoding of their status codes.
// ---------------------------------------------------------------------

/// Abstract contents of the sealed blob in the slot.
pub ghost struct SealedView {
    /// The secret material itself.
    pub secret: Seq<u8>,
    /// The recovery password the blob was sealed under, if any.
    pub auth: Option<Seq<char>>,
    /// The platform measurements the blob is bound to.
    pub sealed_measurements: u64,
}

/// Abstract state of the device: the slot, the current platform
/// measurements, and the dictionary-attack lockout flag.
pub ghost struct TpmView {
    pub slot: Option<SealedView>,
    pub measurements: u64,
    pub lockout: bool,
}

struct SealedSecret {
    secret: Vec<u8>,
    auth: Option<String>,
    sealed_measurements: u64,
}

/// The sealed-secret engine over the fixed NVRAM slot.
pub struct Tpm2Totp {
    slot: Option<SealedSecret>,
    measurements: u64,
    lockout: bool,
}

impl View for Tpm2Totp {
    type V = TpmView;

    closed spec fn view(&self) -> TpmView {
        TpmView {
            slot: match self.slot {
                Some(b) => Some(
                    SealedView {
                        secret: b.secret@,
                        auth: match b.auth {
                            Some(a) => Some(a@),
                            None => None,
                        },
                        sealed_measurements: b.sealed_measurements,
                    },
                ),
                None => None,
            },
            measurements: self.measurements,
            lockout: self.lockout,
        }
    }
}

/// Rolling digest of the secret material, kept below 2^32. Together with
/// `code_of` it is the in-crate device state's own derivation: a fixed
/// stand-in for the device's HMAC-based computation, not the RFC 6238
/// one, so codes served from this state will not match an authenticator
/// fed the enrollment URL.
pub open spec fn blob_hash(secret: Seq<u8>) -> nat
    decreases secret.len(),
{
    if secret.len() == 0 {
        5381
    } else {
        ((blob_hash(secret.drop_last()) * 31 + secret.last()) % 0x1_0000_0000) as nat
    }
}

/// The code the in-crate device state derives from the secret for one
/// time window: a six-digit value (see `blob_hash` for what this
/// derivation is and is not).
pub open spec fn code_of(secret: Seq<u8>, window: u64) -> u64 {
    (((blob_hash(secret) + window) % 1_000_000) as u64)
}

/// What `show` returns on a given device state: the code for the current
/// window, or the one failure the state dictates.
pub open spec fn show_spec(s: TpmView, now: u64) -> Result<u64, TotpError> {
    match s.slot {
        None => Err(TotpError::SecretNotFound),
        Some(b) => if s.lockout {
            Err(TotpError::Lockout)
        } else if b.sealed_measurements != s.measurements {
            Err(TotpError::SystemStateChanged)
        } else {
            Ok(code_of(b.secret, now / 30))
        },
    }
}

/// The failure, if any, of authenticating against a sealed blob with a
/// recovery password.
pub open spec fn auth_check(b: SealedView, pw: Seq<char>, lockout: bool) -> Option<TotpError> {
    if lockout {
        Some(TotpError::Lockout)
    } else if pw.len() == 0 {
        Some(TotpError::NoPasswordProvided)
    } else {
        match b.auth {
            None => Some(TotpError::SecretHasNoPassword),
            Some(a) => if a != pw {
                Some(TotpError::WrongPassword)
            } else {
                None
            },
        }
    }
}

/// State change and result of `init`.
pub open spec fn init_spec(s: TpmView, pw: Seq<char>, secret: Seq<u8>) -> (TpmView, Result<
    (),
    TotpError,
>) {
    match s.slot {
        Some(_) => (s, Err(TotpError::SecretAlreadyExists)),
        None => (
            TpmView {
                slot: Some(
                    SealedView {
                        secret,
                        auth: if pw.len() == 0 {
                            None
                        } else {
                            Some(pw)
                        },
                        sealed_measurements: s.measurements,
                    },
                ),
                measurements: s.measurements,
                lockout: s.lockout,
            },
            Ok(()),
        ),
    }
}

/// State change and result of `reseal`: on success the blob is re-bound
/// to the current measurements; on every failure the state is untouched.
pub open spec fn reseal_spec(s: TpmView, pw: Seq<char>) -> (TpmView, Result<(), TotpError>) {
    match s.slot {
        None => (s, Err(TotpError::SecretNotFound)),
        Some(b) => match auth_check(b, pw, s.lockout) {
            Some(e) => (s, Err(e)),
            None => (
                TpmView {
                    slot: Some(
                        SealedView {
                            secret: b.secret,
                            auth: b.auth,
                            sealed_measurements: s.measurements,
                        },
                    ),
                    measurements: s.measurements,
                    lockout: s.lockout,
                },
                Ok(()),
            ),
        },
    }
}

/// Result of `recover`: the secret material back, under the same
/// authentication rules as `reseal`; the state never changes.
pub open spec fn recover_spec(s: TpmView, pw: Seq<char>) -> Result<Seq<u8>, TotpError> {
    match s.slot {
        None => Err(TotpError::SecretNotFound),
        Some(b) => match auth_check(b, pw, s.lockout) {
            Some(e) => Err(e),
            None => Ok(b.secret),
        },
    }
}

/// State change and result of `clean`.
pub open spec fn clean_spec(s: TpmView) -> (TpmView, Result<(), TotpError>) {
    match s.slot {
        None => (s, Err(TotpError::SecretNotFound)),
        Some(_) => (
            TpmView { slot: None, measurements: s.measurements, lockout: s.lockout },
            Ok(()),
        ),
    }
}

/// The status code the authentication path reports for a blob, a
/// password and the lockout flag.
pub open spec fn auth_rc_spec(b: SealedView, pw: Seq<char>, lockout: bool) -> i32 {
    if lockout {
        RC_LOCKOUT
    } else if pw.len() == 0 {
        RC_NO_PASSWORD_PROVIDED
    } else {
        match b.auth {
            None => RC_SECRET_HAS_NO_PASSWORD,
            Some(a) => if a != pw {
                RC_WRONG_PASSWORD
            } else {
                0
            },
        }
    }
}

fn copy_bytes(v: &Vec<u8>) -> (r: Vec<u8>)
    ensures
        r@ == v@,
{
    let mut r: Vec<u8> = Vec::new();
    let mut i: usize = 0;
    while i < v.len()
        invariant
            i <= v@.len(),
            r@ == v@.subrange(0, i as int),
        decreases v@.len() - i,
    {
        r.push(v[i]);
        proof {
            assert(r@ =~= v@.subrange(0, i + 1));
        }
        i += 1;
    }
    proof {
        assert(r@ =~= v@);
    }
    r
}

fn compute_code(secret: &Vec<u8>, window: u64) -> (c: u64)
    ensures
        c == code_of(secret@, window),
        c < 1_000_000,
{
    let mut h: u64 = 5381;
    let mut i: usize = 0;
    while i < secret.len()
        invariant
            i <= secret@.len(),
            h as nat == blob_hash(secret@.subrange(0, i as int)),
            h < 0x1_0000_0000,
        decreases secret@.len() - i,
    {
        proof {
            assert(secret@.subrange(0, i + 1).drop_last() =~= secret@.subrange(0, i as int));
            assert(secret@.subrange(0, i + 1).last() == secret@[i as int]);
        }
        h = (h * 31 + secret[i] as u64) % 0x1_0000_0000;
        i += 1;
    }
    proof {
        assert(secret@.subrange(0, secret@.len() as int) =~= secret@);
        vstd::arithmetic::div_mod::lemma_add_mod_noop(
            blob_hash(secret@) as int,
            window as int,
            1_000_000,
        );
    }
    ((h % 1_000_000) + (window % 1_000_000)) % 1_000_000
}

impl Tpm2Totp {
    /// A fresh device state: empty slot, zero measurements, no lockout.
    pub fn new() -> (t: Tpm2Totp)
        ensures
            t@.slot is None,
            t@.measurements == 0,
            !t@.lockout,
    {
        Tpm2Totp { slot: None, measurements: 0, lockout: false }
    }

    /// Records a change of the platform measurements, as a firmware or
    /// boot-chain change would.
    pub fn set_measurements(&mut self, m: u64)
        ensures
            final(self)@ == (TpmView { measurements: m, ..old(self)@ }),
    {
        self.measurements = m;
    }

    /// Sets or clears the dictionary-attack lockout flag.
    pub fn set_lockout(&mut self, lockout: bool)
        ensures
            final(self)@ == (TpmView { lockout, ..old(self)@ }),
    {
        self.lockout = lockout;
    }

    fn load_key_rc(&self) -> (rc: i32)
        ensures
            rc == (if self@.slot is Some {
                0i32
            } else {
                RC_SECRET_NOT_FOUND
            }),
    {
        match &self.slot {
            Some(_) => 0,
            None => RC_SECRET_NOT_FOUND,
        }
    }

    fn delete_key_rc(&mut self) -> (rc: i32)
        ensures
            old(self)@.slot is None ==> rc == RC_SECRET_NOT_FOUND && final(self)@ == old(self)@,
            old(self)@.slot is Some ==> rc == 0 && final(self)@ == (TpmView {
                slot: None,
                ..old(self)@
            }),
    {
        match &self.slot {
            None => RC_SECRET_NOT_FOUND,
            Some(_) => {
                self.slot = None;
                0
            },
        }
    }

    fn store_key_rc(&mut self, blob: SealedSecret) -> (rc: i32)
        ensures
            old(self)@.slot is Some ==> rc == RC_SECRET_ALREADY_EXISTS && final(self)@ == old(
                self,
            )@,
            old(self)@.slot is None ==> rc == 0 && final(self)@ == (TpmView {
                slot: Some(
                    SealedView {
                        secret: blob.secret@,
                        auth: match blob.auth {
                            Some(a) => Some(a@),
                            None => None,
                        },
                        sealed_measurements: blob.sealed_measurements,
                    },
                ),
                ..old(self)@
            }),
    {
        match &self.slot {
            Some(_) => RC_SECRET_ALREADY_EXISTS,
            None => {
                self.slot = Some(blob);
                0
            },
        }
    }

    fn auth_rc(blob: &SealedSecret, password: &TotpPass, lockout: bool) -> (rc: i32)
        ensures
            rc == auth_rc_spec(
                SealedView {
                    secret: blob.secret@,
                    auth: match blob.auth {
                        Some(a) => Some(a@),
                        None => None,
                    },
                    sealed_measurements: blob.sealed_measurements,
                },
                password.0@,
                lockout,
            ),
    {
        if lockout {
            return RC_LOCKOUT;
        }
        if password.0.as_str().is_empty() {
            return RC_NO_PASSWORD_PROVIDED;
        }
        match &blob.auth {
            None => RC_SECRET_HAS_NO_PASSWORD,
            Some(a) => {
                if crate::bridge::str_eq(a.as_str(), password.0.as_str()) {
                    0
                } else {
                    RC_WRONG_PASSWORD
                }
            },
        }
    }

    /// Loads the sealed blob and has the device compute the code for the
    /// current window. Non-destructive. Reports `SecretNotFound` on an
    /// empty slot, `Lockout` under dictionary-attack lockout, and
    /// `SystemStateChanged` when the current measurements no longer match
    /// the ones the blob was sealed under.
    pub fn show(&mut self, now: u64) -> (r: Result<TotpCode, TotpError>)
        ensures
            final(self)@ == old(self)@,
            match r {
                Ok(c) => show_spec(old(self)@, now) == Ok::<u64, TotpError>(c.0) && c.0
                    < 1_000_000,
                Err(e) => show_spec(old(self)@, now) == Err::<u64, TotpError>(e),
            },
    {
        let rc = self.load_key_rc();
        if rc != 0 {
            return Err(TotpError::from_rc(rc));
        }
        match &self.slot {
            Some(blob) => {
                let rc = if self.lockout {
                    RC_LOCKOUT
                } else if blob.sealed_measurements != self.measurements {
                    RC_SYSTEM_STATE_CHANGED
                } else {
                    0
                };
                if rc != 0 {
                    return Err(TotpError::from_rc(rc));
                }
                Ok(TotpCode(compute_code(&blob.secret, now / 30)))
            },
            None => {
                proof {
                    assert(false);
                }
                Err(TotpError::SecretNotFound)
            },
        }
    }

    /// Creates a new sealed secret in the empty slot, bound to the
    /// current measurements and, when the password is not empty, to the
    /// password. Hands the secret material back for enrollment. Reports
    /// `SecretAlreadyExists` when the slot is occupied.
    pub fn init(&mut self, password: &TotpPass, secret: TotpSecret) -> (r: Result<
        TotpSecret,
        TotpError,
    >)
        ensures
            ({
                let (s2, res) = init_spec(old(self)@, password.0@, secret.0@);
                &&& final(self)@ == s2
                &&& match r {
                    Ok(out) => res == Ok::<(), TotpError>(()) && out.0@ == secret.0@,
                    Err(e) => res == Err::<(), TotpError>(e),
                }
            }),
    {
        let out = copy_bytes(&secret.0);
        let auth = if password.0.as_str().is_empty() {
            None
        } else {
            Some(password.0.clone())
        };
        let blob = SealedSecret { secret: secret.0, auth, sealed_measurements: self.measurements };
        let rc = self.store_key_rc(blob);
        if rc != 0 {
            return Err(TotpError::from_rc(rc));
        }
        Ok(TotpSecret(out))
    }

    /// Re-binds the sealed secret to the current measurements without
    /// changing the secret, after authenticating with the recovery
    /// password. The primitive order is load, reseal, delete the old
    /// blob, store the new one; every failure leaves the slot as it was.
    pub fn reseal(&mut self, password: &TotpPass) -> (r: Result<(), TotpError>)
        ensures
            ({
                let (s2, res) = reseal_spec(old(self)@, password.0@);
                &&& final(self)@ == s2
                &&& match r {
                    Ok(()) => res == Ok::<(), TotpError>(()),
                    Err(e) => res == Err::<(), TotpError>(e),
                }
            }),
    {
        let rc = self.load_key_rc();
        if rc != 0 {
            return Err(TotpError::from_rc(rc));
        }
        let new_blob: SealedSecret;
        match &self.slot {
            Some(blob) => {
                let rc = Self::auth_rc(blob, password, self.lockout);
                if rc != 0 {
                    return Err(TotpError::from_rc(rc));
                }
                let auth = match &blob.auth {
                    Some(a) => Some(a.clone()),
                    None => None,
                };
                new_blob = SealedSecret {
                    secret: copy_bytes(&blob.secret),
                    auth,
                    sealed_measurements: self.measurements,
                };
            },
            None => {
                proof {
                    assert(false);
                }
                return Err(TotpError::SecretNotFound);
            },
        }
        let rc = self.delete_key_rc();
        if rc != 0 {
            return Err(TotpError::from_rc(rc));
        }
        let rc = self.store_key_rc(new_blob);
        if rc != 0 {
            return Err(TotpError::from_rc(rc));
        }
        Ok(())
    }

    /// Hands the secret material back out of the sealed blob, under the
    /// same authentication rules as `reseal`. Non-destructive.
    pub fn recover(&mut self, password: &TotpPass) -> (r: Result<TotpSecret, TotpError>)
        ensures
            final(self)@ == old(self)@,
            match r {
                Ok(out) => recover_spec(old(self)@, password.0@) == Ok::<Seq<u8>, TotpError>(
                    out.0@,
                ),
                Err(e) => recover_spec(old(self)@, password.0@) == Err::<Seq<u8>, TotpError>(e),
            },
    {
        let rc = self.load_key_rc();
        if rc != 0 {
            return Err(TotpError::from_rc(rc));
        }
        match &self.slot {
            Some(blob) => {
                let rc = Self::auth_rc(blob, password, self.lockout);
                if rc != 0 {
                    return Err(TotpError::from_rc(rc));
                }
                Ok(TotpSecret(copy_bytes(&blob.secret)))
            },
            None => {
                proof {
                    assert(false);
                }
                Err(TotpError::SecretNotFound)
            },
        }
    }

    /// Deletes whatever the slot holds. Reports `SecretNotFound` when it
    /// was already empty.
    pub fn clean(&mut self) -> (r: Result<(), TotpError>)
        ensures
            ({
                let (s2, res) = clean_spec(old(self)@);
                &&& final(self)@ == s2
                &&& match r {
                    Ok(()) => res == Ok::<(), TotpError>(()),
                    Err(e) => res == Err::<(), TotpError>(e),
                }
            }),
    {
        let rc = self.delete_key_rc();
        if rc != 0 {
            return Err(TotpError::from_rc(rc));
        }
        Ok(())
    }
}

/// Law: every derived code fits in six decimal digits.
pub proof fn lemma_code_is_six_digits(secret: Seq<u8>, window: u64)
    ensures
        code_of(secret, window) < 1_000_000,
{
}

/// Law: reading the code from an empty slot reports exactly
/// `SecretNotFound`, never any other failure.
pub proof fn lemma_show_empty_slot(s: TpmView, now: u64)
    requires
        s.slot is None,
    ensures
        show_spec(s, now) == Err::<u64, TotpError>(TotpError::SecretNotFound),
{
}

/// Law: after initializing the empty slot with a password, resealing
/// with the same password succeeds, and the code stays retrievable
/// afterwards.
pub proof fn lemma_reseal_after_init(s: TpmView, pw: Seq<char>, secret: Seq<u8>, now: u64)
    requires
        s.slot is None,
        !s.lockout,
        pw.len() > 0,
    ensures
        ({
            let (s1, r1) = init_spec(s, pw, secret);
            &&& r1 == Ok::<(), TotpError>(())
            &&& reseal_spec(s1, pw).1 == Ok::<(), TotpError>(())
            &&& show_spec(reseal_spec(s1, pw).0, now) == Ok::<u64, TotpError>(
                code_of(secret, now / 30),
            )
        }),
{
}

/// Law: resealing with a wrong password reports exactly `WrongPassword`
/// and leaves the sealed secret as it was.
pub proof fn lemma_reseal_wrong_password(s: TpmView, pw: Seq<char>, wrong: Seq<char>, secret: Seq<
    u8,
>)
    requires
        s.slot is None,
        !s.lockout,
        pw.len() > 0,
        wrong.len() > 0,
        wrong != pw,
    ensures
        ({
            let (s1, r1) = init_spec(s, pw, secret);
            &&& reseal_spec(s1, wrong).1 == Err::<(), TotpError>(TotpError::WrongPassword)
            &&& reseal_spec(s1, wrong).0 == s1
            &&& reseal_spec(s1, wrong).0.slot matches Some(b) && b.secret == secret
        }),
{
}

/// Law: every failing reseal leaves the device state, the slot included,
/// exactly as it was; the slot is never emptied on a failure path.
pub proof fn lemma_reseal_failure_keeps_state(s: TpmView, pw: Seq<char>)
    ensures
        reseal_spec(s, pw).1 is Err ==> reseal_spec(s, pw).0 == s,
{
}

} // verus!
