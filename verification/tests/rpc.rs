use popsec::dbus::{
    classify_call_failure, reply_for_init, reply_for_show, reply_for_unit, startup_step, Client,
    Error, MethodReply, StartupAction, StartupError, StartupEvent, StartupState, DBUS_DEST,
    DBUS_IFACE, DBUS_PATH, METHOD_TPM2_TOTP_SHOW,
};
use popsec::tpm2_totp::{TotpCode, TotpError, TotpSecret};

#[test]
fn endpoint_identity_is_fixed() {
    assert_eq!(DBUS_DEST, "com.system76.PopSec");
    assert_eq!(DBUS_IFACE, "com.system76.PopSec");
    assert_eq!(DBUS_PATH, "/com/system76/PopSec");
    assert_eq!(METHOD_TPM2_TOTP_SHOW, "Tpm2TotpShow");
}

#[test]
fn a_named_domain_error_is_reconstructed() {
    let e = classify_call_failure(
        "Tpm2TotpShow",
        Some(String::from("com.system76.PopSec.Error.SecretNotFound")),
        String::from("No TOTP secret is currently stored"),
    );
    assert_eq!(e, Error::Totp(TotpError::SecretNotFound));
}

#[test]
fn the_other_name_carries_its_message() {
    let e = classify_call_failure(
        "Tpm2TotpShow",
        Some(String::from("com.system76.PopSec.Error.Other")),
        String::from("raw detail"),
    );
    assert_eq!(e, Error::Totp(TotpError::Other(String::from("raw detail"))));
}

#[test]
fn a_foreign_name_stays_a_transport_error() {
    let e = classify_call_failure(
        "Tpm2TotpShow",
        Some(String::from("org.freedesktop.DBus.Error.NoReply")),
        String::from("did not get a reply"),
    );
    assert_eq!(e, Error::Call("Tpm2TotpShow", String::from("did not get a reply")));

    let e = classify_call_failure("Tpm2TotpShow", None, String::from("lost"));
    assert_eq!(e, Error::Call("Tpm2TotpShow", String::from("lost")));
}

#[test]
fn show_replies_carry_the_code_or_the_named_error() {
    assert_eq!(reply_for_show(Ok(TotpCode(123456))), MethodReply::Code(123456));
    assert_eq!(
        reply_for_show(Err(TotpError::SecretNotFound)),
        MethodReply::Failure {
            name: String::from("com.system76.PopSec.Error.SecretNotFound"),
            message: String::from("No TOTP secret is currently stored"),
        }
    );
}

#[test]
fn init_and_unit_replies() {
    assert_eq!(
        reply_for_init(Ok(TotpSecret(vec![1, 2]))),
        MethodReply::Bytes(vec![1, 2])
    );
    assert_eq!(reply_for_unit(Ok(())), MethodReply::Done);
    assert_eq!(
        reply_for_unit(Err(TotpError::WrongPassword)),
        MethodReply::Failure {
            name: String::from("com.system76.PopSec.Error.WrongPassword"),
            message: String::from("Wrong recovery password for the TOTP secret"),
        }
    );
}

#[test]
fn unprivileged_startup_fails_before_any_registration() {
    let (s, a) = startup_step(StartupState::CheckingPrivilege, StartupEvent::Euid(1000));
    assert_eq!(s, StartupState::Failed(StartupError::NotRoot));
    assert_eq!(a, StartupAction::Abort);
    // The failure is absorbing: nothing later asks for the bus name.
    let (s, a) = startup_step(s, StartupEvent::ConnectOk);
    assert_eq!(s, StartupState::Failed(StartupError::NotRoot));
    assert_eq!(a, StartupAction::Abort);
}

#[test]
fn privileged_startup_walks_to_serving() {
    let (s, a) = startup_step(StartupState::CheckingPrivilege, StartupEvent::Euid(0));
    assert_eq!(s, StartupState::Connecting);
    assert_eq!(a, StartupAction::Connect);
    let (s, a) = startup_step(s, StartupEvent::ConnectOk);
    assert_eq!(s, StartupState::RequestingName);
    assert_eq!(a, StartupAction::RequestName);
    let (s, a) = startup_step(s, StartupEvent::NameAcquired);
    assert_eq!(s, StartupState::Serving);
    assert_eq!(a, StartupAction::Serve);
}

#[test]
fn an_owned_name_is_fatal() {
    let (s, a) = startup_step(
        StartupState::RequestingName,
        StartupEvent::NameRefused(String::from("name already owned")),
    );
    assert_eq!(
        s,
        StartupState::Failed(StartupError::NameTaken(String::from("name already owned")))
    );
    assert_eq!(a, StartupAction::Abort);
}

#[test]
fn client_connection_failure_is_a_connection_error() {
    // With no reachable system bus the connection must fail with the
    // transport's connection error, never an engine error.
    match Client::new() {
        Ok(_) => {},
        Err(Error::Connection(_)) => {},
        Err(other) => panic!("unexpected error class: {:?}", other),
    }
}
