use popsec::poller::{next_window_end, poller_step, PollerAction, PollerEvent, PollerState};
use popsec::tpm2_totp::TotpError;

#[test]
fn window_alignment_at_seventeen_seconds() {
    // 12:00:17: the boundary is 12:00:30, thirteen seconds out.
    let now: u64 = 12 * 3600 + 17;
    let end = next_window_end(now);
    assert_eq!(end, 12 * 3600 + 30);
    assert_eq!(end - now, 13);
}

#[test]
fn window_alignment_at_thirty_one_seconds() {
    // 12:00:31: the boundary is 12:01:00, twenty-nine seconds out.
    let now: u64 = 12 * 3600 + 31;
    let end = next_window_end(now);
    assert_eq!(end, 12 * 3600 + 60);
    assert_eq!(end - now, 29);
}

#[test]
fn window_boundary_is_strictly_ahead() {
    assert_eq!(next_window_end(0), 30);
    assert_eq!(next_window_end(30), 60);
    assert_eq!(next_window_end(29), 30);
}

#[test]
fn a_code_reply_starts_a_window() {
    let now: u64 = 12 * 3600 + 17;
    let (s, a) = poller_step(
        PollerState::AwaitingCode,
        PollerEvent::ShowOk { code: 123456, now },
    );
    assert_eq!(s, PollerState::HaveCode { code: 123456, window_end: 12 * 3600 + 30 });
    assert_eq!(a, PollerAction::EmitCode(123456));
}

#[test]
fn ticks_count_the_window_down_then_ask_again() {
    let state = PollerState::HaveCode { code: 1, window_end: 60 };
    let (s, a) = poller_step(state, PollerEvent::Tick { now: 47 });
    assert_eq!(s, PollerState::HaveCode { code: 1, window_end: 60 });
    assert_eq!(a, PollerAction::EmitCountdown { remaining: 13 });

    let state = PollerState::HaveCode { code: 1, window_end: 60 };
    let (s, a) = poller_step(state, PollerEvent::Tick { now: 60 });
    assert_eq!(s, PollerState::AwaitingCode);
    assert_eq!(a, PollerAction::CallShow);
}

#[test]
fn a_failure_is_emitted_then_retried_after_a_tick() {
    let (s, a) = poller_step(
        PollerState::AwaitingCode,
        PollerEvent::ShowErr(TotpError::SecretNotFound),
    );
    assert_eq!(s, PollerState::Errored(TotpError::SecretNotFound));
    assert_eq!(a, PollerAction::EmitError(TotpError::SecretNotFound));

    let (s, a) = poller_step(s, PollerEvent::Tick { now: 100 });
    assert_eq!(s, PollerState::AwaitingCode);
    assert_eq!(a, PollerAction::CallShow);
}

#[test]
fn refresh_abandons_the_countdown_at_once() {
    let state = PollerState::HaveCode { code: 1, window_end: 60 };
    let (s, a) = poller_step(state, PollerEvent::Refresh);
    assert_eq!(s, PollerState::AwaitingCode);
    assert_eq!(a, PollerAction::CallShow);
}
