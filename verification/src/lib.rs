//! Core of a TPM-backed boot-attestation TOTP tool: the sealed-secret
//! lifecycle engine, the error taxonomy and its wire-name bridge, the
//! remote-call protocol around it, and the client-side polling machine.
pub mod bridge;
pub mod dbus;
pub mod enroll;
pub mod poller;
pub mod tpm2_totp;
