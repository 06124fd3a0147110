//! The client-side polling machine: it asks the daemon for the current
//! code, computes the boundary of the running thirty-second window, and
//! emits one event per observation — the code, a failure, or the seconds
//! remaining until the window turns over.
use vstd::prelude::*;

use crate::tpm2_totp::TotpError;

verus! {

/// Where the poller stands.
#[derive(Debug, PartialEq, Eq)]
pub enum PollerState {
    /// A code has been requested and no reply has arrived yet.
    AwaitingCode,
    /// A code is on display until the end of its window.
    HaveCode { code: u64, window_end: u64 },
    /// The last request failed; retry after a beat.
    Errored(TotpError),
}

/// What the poller reacts to.
#[derive(Debug, PartialEq, Eq)]
pub enum PollerEvent {
    /// The daemon replied with a code; `now` is the wall clock of the
    /// reply, in whole seconds.
    ShowOk { code: u64, now: u64 },
    /// The daemon replied with a failure.
    ShowErr(TotpError),
    /// One second has passed.
    Tick { now: u64 },
    /// The secret was just changed by an init or reseal action: drop any
    /// remaining countdown and ask again at once.
    Refresh,
}

/// What the poller asks its surroundings to do after a step.
#[derive(Debug, PartialEq, Eq)]
pub enum PollerAction {
    /// Hand the code to the presentation layer.
    EmitCode(u64),
    /// Hand the failure to the presentation layer.
    EmitError(TotpError),
    /// Hand the seconds remaining in the current window to the
    /// presentation layer.
    EmitCountdown { remaining: u64 },
    /// Invoke the remote show operation.
    CallShow,
}

/// The boundary of the thirty-second window that `now` falls in: the
/// next multiple of thirty seconds, strictly after `now`.
pub open spec fn window_end_of(now: u64) -> int {
    (now as int / 30 + 1) * 30
}

/// Computes the end of the current code window. Window boundaries sit at
/// the full and the half minute.
pub fn next_window_end(now: u64) -> (end: u64)
    requires
        now <= u64::MAX - 30,
    ensures
        end == window_end_of(now),
        now < end <= now + 30,
        end % 30 == 0,
{
    (now / 30) * 30 + 30
}

/// Law: the window boundary is a multiple of thirty seconds — the full
/// or the half minute — strictly after the current second and at most
/// thirty seconds out.
pub proof fn lemma_window_alignment(now: u64)
    ensures
        window_end_of(now) % 30 == 0,
        now < window_end_of(now) <= now + 30,
{
}

/// One step of the poller: the state it moves to and the action it asks
/// for. A reply always takes effect; a tick counts the running window
/// down or, past the boundary or after a failure, asks again; a refresh
/// abandons whatever runs and asks again at once.
pub open spec fn poller_step_spec(s: PollerState, ev: PollerEvent) -> (PollerState, PollerAction) {
    match ev {
        PollerEvent::Refresh => (PollerState::AwaitingCode, PollerAction::CallShow),
        PollerEvent::ShowOk { code, now } => (
            PollerState::HaveCode { code, window_end: (window_end_of(now) as u64) },
            PollerAction::EmitCode(code),
        ),
        PollerEvent::ShowErr(e) => (PollerState::Errored(e), PollerAction::EmitError(e)),
        PollerEvent::Tick { now } => match s {
            PollerState::HaveCode { code, window_end } => if now < window_end {
                (
                    PollerState::HaveCode { code, window_end },
                    PollerAction::EmitCountdown { remaining: (window_end - now) as u64 },
                )
            } else {
                (PollerState::AwaitingCode, PollerAction::CallShow)
            },
            _ => (PollerState::AwaitingCode, PollerAction::CallShow),
        },
    }
}

/// Drives the poller one step.
pub fn poller_step(s: PollerState, ev: PollerEvent) -> (r: (PollerState, PollerAction))
    requires
        ev matches PollerEvent::ShowOk { code, now } ==> now <= u64::MAX - 30,
    ensures
        r == poller_step_spec(s, ev),
{
    match ev {
        PollerEvent::Refresh => (PollerState::AwaitingCode, PollerAction::CallShow),
        PollerEvent::ShowOk { code, now } => {
            let window_end = next_window_end(now);
            (
                PollerState::HaveCode { code, window_end },
                PollerAction::EmitCode(code),
            )
        },
        PollerEvent::ShowErr(e) => {
            let reported = e.duplicate();
            (PollerState::Errored(e), PollerAction::EmitError(reported))
        },
        PollerEvent::Tick { now } => match s {
            PollerState::HaveCode { code, window_end } => if now < window_end {
                (
                    PollerState::HaveCode { code, window_end },
                    PollerAction::EmitCountdown { remaining: window_end - now },
                )
            } else {
                (PollerState::AwaitingCode, PollerAction::CallShow)
            },
            _ => (PollerState::AwaitingCode, PollerAction::CallShow),
        },
    }
}

} // verus!
