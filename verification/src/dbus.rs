//! The remote-call layer: the fixed endpoint identity, the client that
//! calls the privileged daemon, the translation of engine results into
//! wire replies, and the daemon's startup sequence. Transport failures
//! are kept strictly apart from the engine's own error taxonomy.
use vstd::prelude::*;

use crate::bridge;
use crate::bridge::{from_name_spec, is_domain_name, message_of, name_of};
use crate::tpm2_totp::{TotpCode, TotpError, TotpPass, TotpSecret};

verus! {

/// The well-known bus name the daemon must own exclusively.
pub const DBUS_DEST: &'static str = "com.system76.PopSec";

/// The interface under which the methods are served.
pub const DBUS_IFACE: &'static str = "com.system76.PopSec";

/// The object path the methods live on.
pub const DBUS_PATH: &'static str = "/com/system76/PopSec";

pub const METHOD_TPM2_TOTP_SHOW: &'static str = "Tpm2TotpShow";

pub const METHOD_TPM2_TOTP_INIT: &'static str = "Tpm2TotpInit";

pub const METHOD_TPM2_TOTP_RESEAL: &'static str = "Tpm2TotpReseal";

pub const METHOD_TPM2_TOTP_CLEAN: &'static str = "Tpm2TotpClean";

/// An error of a client operation. `Totp` carries an engine failure
/// reconstructed from its wire name; the other variants are failures of
/// the transport itself and never stand for an engine condition.
#[derive(Debug, PartialEq, Eq)]
pub enum Error {
    /// The reply did not carry the expected argument shape.
    ArgumentMismatch(&'static str, String),
    /// The method call itself failed, for a reason outside the reserved
    /// error namespace.
    Call(&'static str, String),
    /// No connection to the system bus could be established.
    Connection(String),
    /// The method-call message could not be constructed.
    NewMethodCall(&'static str, String),
    /// The daemon reported an engine failure.
    Totp(TotpError),
}

/// Whether a string is free of interior NUL characters, as the C side of
/// the bus library demands of every name handed to it.
pub open spec fn no_nul(s: Seq<char>) -> bool {
    forall|i: int| 0 <= i < s.len() ==> s[i] != '\0'
}

fn has_no_nul(s: &str) -> (r: bool)
    ensures
        r == no_nul(s@),
{
    let n = s.unicode_len();
    let mut i: usize = 0;
    while i < n
        invariant
            i <= n,
            n as nat == s@.len(),
            forall|j: int| 0 <= j < i ==> s@[j] != '\0',
        decreases n - i,
    {
        if s.get_char(i) == '\0' {
            return false;
        }
        i += 1;
    }
    true
}

// ---------------------------------------------------------------------
// Trusted boundary to the bus library.
// ---------------------------------------------------------------------

#[verifier::external_type_specification]
#[verifier::external_body]
pub struct ExConnection(dbus::ffidisp::Connection);

#[verifier::external_type_specification]
#[verifier::external_body]
pub struct ExMessage(dbus::Message);

/// Relies on dbus::ffidisp::Connection::new_system: opens a private
/// connection to the system bus, or reports why none could be opened.
#[verifier::external_body]
fn connect_system() -> (r: Result<dbus::ffidisp::Connection, String>) {
    match dbus::ffidisp::Connection::new_system() {
        Ok(c) => Ok(c),
        Err(e) => Err(format!("{}", e)),
    }
}

/// Relies on dbus::Message::new_method_call and the fallible typed-name
/// constructors BusName::new, Path::new, Interface::new and Member::new:
/// each name is validated against the D-Bus grammar and an invalid one
/// comes back as an error. The names must be free of interior NUL, which
/// the constructors' C-string view assumes.
#[verifier::external_body]
fn new_method_call(dest: &str, path: &str, iface: &str, method: &str) -> (r: Result<
    dbus::Message,
    String,
>)
    requires
        no_nul(dest@),
        no_nul(path@),
        no_nul(iface@),
        no_nul(method@),
{
    let d = dbus::strings::BusName::new(dest)?;
    let p = dbus::strings::Path::new(path)?;
    let i = dbus::strings::Interface::new(iface)?;
    let m = dbus::strings::Member::new(method)?;
    dbus::Message::new_method_call(d, p, i, m)
}

/// Relies on dbus::Message::append1: appends one string argument. The
/// argument must be free of interior NUL, which the C string conversion
/// inside rejects by panic.
#[verifier::external_body]
fn append_str_arg(msg: dbus::Message, arg: &str) -> (r: dbus::Message)
    requires
        no_nul(arg@),
{
    msg.append1(arg)
}

/// Relies on dbus::ffidisp::Connection::send_with_reply_and_block: sends
/// the call and blocks for the reply. A failure is handed back as the
/// bus error's name, if it has one, and its message text.
#[verifier::external_body]
fn send_with_reply(conn: &dbus::ffidisp::Connection, msg: dbus::Message) -> (r: Result<
    dbus::Message,
    (Option<String>, String),
>) {
    match conn.send_with_reply_and_block(msg, -1) {
        Ok(reply) => Ok(reply),
        Err(e) => Err(
            (
                match e.name() {
                    Some(n) => Some(n.to_owned()),
                    None => None,
                },
                match e.message() {
                    Some(m) => m.to_owned(),
                    None => String::new(),
                },
            ),
        ),
    }
}

/// Relies on dbus::Message::read1: reads the single unsigned 64-bit
/// return argument, or reports the type mismatch.
#[verifier::external_body]
fn read_u64_arg(msg: &dbus::Message) -> (r: Result<u64, String>) {
    match msg.read1::<u64>() {
        Ok(v) => Ok(v),
        Err(e) => Err(format!("{}", e)),
    }
}

/// Relies on dbus::Message::read1: reads the single byte-array return
/// argument, or reports the type mismatch.
#[verifier::external_body]
fn read_bytes_arg(msg: &dbus::Message) -> (r: Result<Vec<u8>, String>) {
    match msg.read1::<Vec<u8>>() {
        Ok(v) => Ok(v),
        Err(e) => Err(format!("{}", e)),
    }
}

// ---------------------------------------------------------------------
// Client.
// ---------------------------------------------------------------------

/// What a failed call maps to: an engine error reconstructed through the
/// bridge when the bus error's name lies in the reserved namespace, a
/// transport error otherwise.
pub open spec fn classify_failure_spec(
    method: &'static str,
    name: Option<String>,
    message: String,
) -> Error {
    match name {
        Some(n) => if is_domain_name(n@) {
            Error::Totp(from_name_spec(n@, message))
        } else {
            Error::Call(method, message)
        },
        None => Error::Call(method, message),
    }
}

/// Sorts a failed call into an engine error or a transport error.
pub fn classify_call_failure(method: &'static str, name: Option<String>, message: String) -> (e:
    Error)
    ensures
        e == classify_failure_spec(method, name, message),
{
    match name {
        Some(n) => {
            if bridge::is_error_name(n.as_str()) {
                Error::Totp(bridge::from_name(n.as_str(), message))
            } else {
                Error::Call(method, message)
            }
        },
        None => Error::Call(method, message),
    }
}

/// Client connection for talking to the privileged daemon.
pub struct Client(dbus::ffidisp::Connection);

impl Client {
    /// Connects to the system bus.
    pub fn new() -> (r: Result<Client, Error>)
        ensures
            r matches Err(e) ==> e matches Error::Connection(_),
    {
        match connect_system() {
            Ok(c) => Ok(Client(c)),
            Err(m) => Err(Error::Connection(m)),
        }
    }

    /// Calls one method on the daemon's fixed endpoint, with at most one
    /// string argument, and blocks for the reply. A method name or
    /// argument holding a NUL character is rejected before anything is
    /// sent, with a fixed message that no other failure path carries. A
    /// failed call whose error name lies in the reserved namespace comes
    /// back as the engine error it names; any other failure comes back
    /// as a transport error.
    pub fn call_method(&self, method: &'static str, arg: Option<&str>) -> (r: Result<
        dbus::Message,
        Error,
    >)
        ensures
            r matches Err(e) ==> ((e matches Error::NewMethodCall(m, _) && m == method) || (
            e matches Error::Call(m, _) && m == method) || (e matches Error::Totp(_))),
            (!no_nul(method@) || (arg matches Some(a) && !no_nul(a@))) ==> (r matches Err(e)
                && e matches Error::NewMethodCall(m, why) && m == method && why@
                == "a name or argument holds a NUL character"@),
            (no_nul(method@) && (arg matches Some(a) ==> no_nul(a@))) ==> (r matches Err(e)
                ==> (e matches Error::NewMethodCall(m, why) ==> why@
                != "a name or argument holds a NUL character"@)),
    {
        let arg_ok = match arg {
            Some(a) => has_no_nul(a),
            None => true,
        };
        if !(has_no_nul(method) && arg_ok) {
            return Err(
                Error::NewMethodCall(
                    method,
                    String::from_str("a name or argument holds a NUL character"),
                ),
            );
        }
        if !(has_no_nul(DBUS_DEST) && has_no_nul(DBUS_PATH) && has_no_nul(DBUS_IFACE)) {
            proof {
                reveal_strlit("a name or argument holds a NUL character");
                reveal_strlit("an endpoint name holds a NUL character");
                assert("a name or argument holds a NUL character"@.len() == 40);
                assert("an endpoint name holds a NUL character"@.len() == 38);
                assert("an endpoint name holds a NUL character"@
                    != "a name or argument holds a NUL character"@);
            }
            return Err(
                Error::NewMethodCall(
                    method,
                    String::from_str("an endpoint name holds a NUL character"),
                ),
            );
        }
        let mut m = match new_method_call(DBUS_DEST, DBUS_PATH, DBUS_IFACE, method) {
            Ok(m) => m,
            Err(why) => {
                // The fixed prefix keeps a builder failure apart from
                // the NUL rejection above.
                let mut text = String::from_str("method call construction failed: ");
                text.append(why.as_str());
                proof {
                    reveal_strlit("method call construction failed: ");
                    reveal_strlit("a name or argument holds a NUL character");
                    assert(text@[0] == 'm');
                    assert("a name or argument holds a NUL character"@[0] == 'a');
                }
                return Err(Error::NewMethodCall(method, text));
            },
        };
        if let Some(a) = arg {
            m = append_str_arg(m, a);
        }
        match send_with_reply(&self.0, m) {
            Ok(reply) => Ok(reply),
            Err((name, message)) => Err(classify_call_failure(method, name, message)),
        }
    }

    /// Asks the daemon for the current code.
    pub fn tpm2_totp_show(&self) -> (r: Result<TotpCode, Error>)
        ensures
            r matches Err(e) ==> match e {
                Error::ArgumentMismatch(m, _) => m == METHOD_TPM2_TOTP_SHOW,
                Error::Call(m, _) => m == METHOD_TPM2_TOTP_SHOW,
                Error::NewMethodCall(m, _) => m == METHOD_TPM2_TOTP_SHOW,
                Error::Connection(_) => false,
                Error::Totp(_) => true,
            },
    {
        match self.call_method(METHOD_TPM2_TOTP_SHOW, None) {
            Ok(reply) => match read_u64_arg(&reply) {
                Ok(v) => Ok(TotpCode(v)),
                Err(why) => Err(Error::ArgumentMismatch(METHOD_TPM2_TOTP_SHOW, why)),
            },
            Err(e) => Err(e),
        }
    }

    /// Asks the daemon to create a new sealed secret under the given
    /// recovery password; hands back the secret material for enrollment.
    pub fn tpm2_totp_init(&self, password: &TotpPass) -> (r: Result<TotpSecret, Error>)
        ensures
            !no_nul(password.0@) ==> (r matches Err(e) && e matches Error::NewMethodCall(m, why)
                && m == METHOD_TPM2_TOTP_INIT && why@ == "a name or argument holds a NUL character"@),
            r matches Err(e) ==> match e {
                Error::ArgumentMismatch(m, _) => m == METHOD_TPM2_TOTP_INIT,
                Error::Call(m, _) => m == METHOD_TPM2_TOTP_INIT,
                Error::NewMethodCall(m, _) => m == METHOD_TPM2_TOTP_INIT,
                Error::Connection(_) => false,
                Error::Totp(_) => true,
            },
    {
        match self.call_method(METHOD_TPM2_TOTP_INIT, Some(password.0.as_str())) {
            Ok(reply) => match read_bytes_arg(&reply) {
                Ok(v) => Ok(TotpSecret(v)),
                Err(why) => Err(Error::ArgumentMismatch(METHOD_TPM2_TOTP_INIT, why)),
            },
            Err(e) => Err(e),
        }
    }

    /// Asks the daemon to re-bind the sealed secret to the current
    /// platform measurements.
    pub fn tpm2_totp_reseal(&self, password: &TotpPass) -> (r: Result<(), Error>)
        ensures
            !no_nul(password.0@) ==> (r matches Err(e) && e matches Error::NewMethodCall(m, why)
                && m == METHOD_TPM2_TOTP_RESEAL && why@ == "a name or argument holds a NUL character"@),
            r matches Err(e) ==> match e {
                Error::ArgumentMismatch(m, _) => m == METHOD_TPM2_TOTP_RESEAL,
                Error::Call(m, _) => m == METHOD_TPM2_TOTP_RESEAL,
                Error::NewMethodCall(m, _) => m == METHOD_TPM2_TOTP_RESEAL,
                Error::Connection(_) => false,
                Error::Totp(_) => true,
            },
    {
        match self.call_method(METHOD_TPM2_TOTP_RESEAL, Some(password.0.as_str())) {
            Ok(_) => Ok(()),
            Err(e) => Err(e),
        }
    }

    /// Asks the daemon to delete the sealed secret.
    pub fn tpm2_totp_clean(&self) -> (r: Result<(), Error>)
        ensures
            r matches Err(e) ==> match e {
                Error::ArgumentMismatch(m, _) => m == METHOD_TPM2_TOTP_CLEAN,
                Error::Call(m, _) => m == METHOD_TPM2_TOTP_CLEAN,
                Error::NewMethodCall(m, _) => m == METHOD_TPM2_TOTP_CLEAN,
                Error::Connection(_) => false,
                Error::Totp(_) => true,
            },
    {
        match self.call_method(METHOD_TPM2_TOTP_CLEAN, None) {
            Ok(_) => Ok(()),
            Err(e) => Err(e),
        }
    }
}

// ---------------------------------------------------------------------
// Server-side reply translation.
// ---------------------------------------------------------------------

/// A method reply as it goes onto the wire: a value, or a named error
/// under the reserved namespace.
#[derive(Debug, PartialEq, Eq)]
pub enum MethodReply {
    Code(u64),
    Bytes(Vec<u8>),
    Done,
    Failure { name: String, message: String },
}

/// Translates the engine's answer to `show` into the wire reply: the
/// code on success, the error's fixed name and message on failure.
pub fn reply_for_show(r: Result<TotpCode, TotpError>) -> (rep: MethodReply)
    ensures
        match r {
            Ok(c) => rep == MethodReply::Code(c.0),
            Err(e) => rep matches MethodReply::Failure { name, message } && name@ == name_of(e)
                && message@ == message_of(e),
        },
{
    match r {
        Ok(c) => MethodReply::Code(c.0),
        Err(e) => MethodReply::Failure {
            name: String::from_str(bridge::to_name(&e)),
            message: bridge::error_message(&e),
        },
    }
}

/// Translates the engine's answer to `init` into the wire reply: the
/// secret bytes on success.
pub fn reply_for_init(r: Result<TotpSecret, TotpError>) -> (rep: MethodReply)
    ensures
        match r {
            Ok(s) => rep matches MethodReply::Bytes(b) && b@ == s.0@,
            Err(e) => rep matches MethodReply::Failure { name, message } && name@ == name_of(e)
                && message@ == message_of(e),
        },
{
    match r {
        Ok(s) => MethodReply::Bytes(s.0),
        Err(e) => MethodReply::Failure {
            name: String::from_str(bridge::to_name(&e)),
            message: bridge::error_message(&e),
        },
    }
}

/// Translates the engine's answer to `reseal` or `clean` into the wire
/// reply.
pub fn reply_for_unit(r: Result<(), TotpError>) -> (rep: MethodReply)
    ensures
        match r {
            Ok(()) => rep == MethodReply::Done,
            Err(e) => rep matches MethodReply::Failure { name, message } && name@ == name_of(e)
                && message@ == message_of(e),
        },
{
    match r {
        Ok(()) => MethodReply::Done,
        Err(e) => MethodReply::Failure {
            name: String::from_str(bridge::to_name(&e)),
            message: bridge::error_message(&e),
        },
    }
}

// ---------------------------------------------------------------------
// Daemon startup.
// ---------------------------------------------------------------------

/// A failure of daemon startup. These are fatal and strictly apart from
/// the engine's error taxonomy.
#[derive(Debug, PartialEq, Eq)]
pub enum StartupError {
    /// The daemon was started without elevated privilege.
    NotRoot,
    /// No connection to the system bus could be established.
    ConnectFailed(String),
    /// Another process already owns the well-known bus name.
    NameTaken(String),
    /// The driver handed the startup machine an event out of turn.
    UnexpectedEvent,
}

/// Where daemon startup stands.
#[derive(Debug, PartialEq, Eq)]
pub enum StartupState {
    /// Waiting for the effective user id.
    CheckingPrivilege,
    /// Privilege confirmed; waiting for the bus connection.
    Connecting,
    /// Connected; waiting for exclusive ownership of the bus name.
    RequestingName,
    /// The daemon serves.
    Serving,
    /// Startup failed; the daemon must exit.
    Failed(StartupError),
}

/// What the startup machine reacts to.
#[derive(Debug, PartialEq, Eq)]
pub enum StartupEvent {
    /// The effective user id of the process.
    Euid(u32),
    ConnectOk,
    ConnectFailed(String),
    NameAcquired,
    NameRefused(String),
}

/// What the startup machine asks its surroundings to do.
#[derive(Debug, PartialEq, Eq)]
pub enum StartupAction {
    /// Open the system-bus connection.
    Connect,
    /// Request exclusive, non-replaceable ownership of the bus name.
    RequestName,
    /// Start serving method calls.
    Serve,
    /// Exit with the failure carried in the state.
    Abort,
}

/// One step of daemon startup: privilege first, then the connection,
/// then exclusive name ownership, then serving. Any failure is absorbing
/// and only ever asks for an exit.
pub open spec fn startup_step_spec(s: StartupState, ev: StartupEvent) -> (
    StartupState,
    StartupAction,
) {
    match s {
        StartupState::CheckingPrivilege => match ev {
            StartupEvent::Euid(euid) => if euid == 0 {
                (StartupState::Connecting, StartupAction::Connect)
            } else {
                (StartupState::Failed(StartupError::NotRoot), StartupAction::Abort)
            },
            _ => (StartupState::Failed(StartupError::UnexpectedEvent), StartupAction::Abort),
        },
        StartupState::Connecting => match ev {
            StartupEvent::ConnectOk => (StartupState::RequestingName, StartupAction::RequestName),
            StartupEvent::ConnectFailed(m) => (
                StartupState::Failed(StartupError::ConnectFailed(m)),
                StartupAction::Abort,
            ),
            _ => (StartupState::Failed(StartupError::UnexpectedEvent), StartupAction::Abort),
        },
        StartupState::RequestingName => match ev {
            StartupEvent::NameAcquired => (StartupState::Serving, StartupAction::Serve),
            StartupEvent::NameRefused(m) => (
                StartupState::Failed(StartupError::NameTaken(m)),
                StartupAction::Abort,
            ),
            _ => (StartupState::Failed(StartupError::UnexpectedEvent), StartupAction::Abort),
        },
        StartupState::Serving => (StartupState::Serving, StartupAction::Serve),
        StartupState::Failed(e) => (StartupState::Failed(e), StartupAction::Abort),
    }
}

/// Drives daemon startup one step.
pub fn startup_step(s: StartupState, ev: StartupEvent) -> (r: (StartupState, StartupAction))
    ensures
        r == startup_step_spec(s, ev),
{
    match s {
        StartupState::CheckingPrivilege => match ev {
            StartupEvent::Euid(euid) => if euid == 0 {
                (StartupState::Connecting, StartupAction::Connect)
            } else {
                (StartupState::Failed(StartupError::NotRoot), StartupAction::Abort)
            },
            _ => (StartupState::Failed(StartupError::UnexpectedEvent), StartupAction::Abort),
        },
        StartupState::Connecting => match ev {
            StartupEvent::ConnectOk => (StartupState::RequestingName, StartupAction::RequestName),
            StartupEvent::ConnectFailed(m) => (
                StartupState::Failed(StartupError::ConnectFailed(m)),
                StartupAction::Abort,
            ),
            _ => (StartupState::Failed(StartupError::UnexpectedEvent), StartupAction::Abort),
        },
        StartupState::RequestingName => match ev {
            StartupEvent::NameAcquired => (StartupState::Serving, StartupAction::Serve),
            StartupEvent::NameRefused(m) => (
                StartupState::Failed(StartupError::NameTaken(m)),
                StartupAction::Abort,
            ),
            _ => (StartupState::Failed(StartupError::UnexpectedEvent), StartupAction::Abort),
        },
        StartupState::Serving => (StartupState::Serving, StartupAction::Serve),
        StartupState::Failed(e) => (StartupState::Failed(e), StartupAction::Abort),
    }
}

/// Whether any step along an event sequence asks for bus-name
/// acquisition.
pub open spec fn requests_name_along(s: StartupState, evs: Seq<StartupEvent>) -> bool
    decreases evs.len(),
{
    if evs.len() == 0 {
        false
    } else {
        startup_step_spec(s, evs[0]).1 == StartupAction::RequestName || requests_name_along(
            startup_step_spec(s, evs[0]).0,
            evs.drop_first(),
        )
    }
}

proof fn lemma_failed_never_requests_name(e: StartupError, evs: Seq<StartupEvent>)
    ensures
        !requests_name_along(StartupState::Failed(e), evs),
    decreases evs.len(),
{
    if evs.len() > 0 {
        lemma_failed_never_requests_name(e, evs.drop_first());
    }
}

/// Law: started without elevated privilege, the daemon fails at once
/// with the startup-class error, and no later step ever attempts
/// bus-name acquisition.
pub proof fn lemma_unprivileged_startup_fails(euid: u32, evs: Seq<StartupEvent>)
    requires
        euid != 0,
    ensures
        startup_step_spec(StartupState::CheckingPrivilege, StartupEvent::Euid(euid)) == (
            StartupState::Failed(StartupError::NotRoot),
            StartupAction::Abort,
        ),
        !requests_name_along(
            startup_step_spec(StartupState::CheckingPrivilege, StartupEvent::Euid(euid)).0,
            evs,
        ),
{
    lemma_failed_never_requests_name(StartupError::NotRoot, evs);
}

} // verus!
