//! The connection actor driven through the handshake, dispatch,
//! correlation and teardown scenarios.

use home_control::actor::{
    Action, Actor, CallOutcome, CommandDisposition, FatalReason, Phase, FIRST_ID,
};
use home_control::cache::Status;
use home_control::decode::decode_states;
use home_control::controller::{
    interpret_outcome, make_call_service, state_changed_subscription,
};
use home_control::error::Error;
use home_control::messages::Message;
use home_control::supervisor::{supervise, SupervisorEvent, RETRY_DELAY_SECS};

fn fresh_actor() -> Actor {
    Actor::new("token-1".to_string(), state_changed_subscription().to_event_types())
}

/// Drives a fresh actor through the handshake and the initial snapshot;
/// returns the actor and the status it published.
fn ready_actor() -> (Actor, Status) {
    let mut a = fresh_actor();
    let mut status = Status::Disconnected;

    let hello = a.handle_frame(Message::AuthRequired { ha_version: "2024.1".to_string() });
    assert_eq!(
        hello,
        vec![Action::SendFrame(Message::Auth { access_token: "token-1".to_string() })]
    );

    let init = a.handle_frame(Message::AuthOk { ha_version: "2024.1".to_string() });
    assert_eq!(
        init,
        vec![
            Action::SendFrame(Message::SubscribeEvents {
                id: 1,
                event_type: Some("state_changed".to_string()),
            }),
            Action::SendFrame(Message::GetStates { id: 2 }),
        ]
    );

    let sub_ok = a.handle_frame(Message::Result {
        id: 1,
        success: true,
        result: "null".to_string(),
        error: None,
    });
    assert_eq!(sub_ok, vec![]);

    let snapshot = a.handle_frame(Message::Result {
        id: 2,
        success: true,
        result: "[]".to_string(),
        error: None,
    });
    assert_eq!(snapshot, vec![Action::LoadSnapshot { payload: "[]".to_string() }]);
    status.load_snapshot(decode_states("[]").expect("an empty snapshot must decode"));

    (a, status)
}

#[test]
fn scenario_handshake_connects_only_after_snapshot() {
    let mut a = fresh_actor();
    let mut status = Status::Disconnected;

    let hello = a.handle_frame(Message::AuthRequired { ha_version: "2024.1".to_string() });
    assert_eq!(
        hello,
        vec![Action::SendFrame(Message::Auth { access_token: "token-1".to_string() })]
    );
    assert!(!status.connected());

    let init = a.handle_frame(Message::AuthOk { ha_version: "2024.1".to_string() });
    assert!(matches!(init[0], Action::SendFrame(Message::SubscribeEvents { .. })));
    assert!(matches!(init[1], Action::SendFrame(Message::GetStates { .. })));
    assert!(!status.connected());

    let sub_ok = a.handle_frame(Message::Result {
        id: 1,
        success: true,
        result: "null".to_string(),
        error: None,
    });
    assert_eq!(sub_ok, vec![]);
    assert!(!status.connected());

    let snapshot = a.handle_frame(Message::Result {
        id: 2,
        success: true,
        result: "[]".to_string(),
        error: None,
    });
    assert_eq!(snapshot, vec![Action::LoadSnapshot { payload: "[]".to_string() }]);
    status.load_snapshot(decode_states("[]").expect("an empty snapshot must decode"));
    assert!(status.connected());
}

#[test]
fn scenario_auth_invalid_is_fatal_and_supervisor_retries() {
    let mut a = fresh_actor();
    let actions = a.handle_frame(Message::AuthInvalid { message: "bad token".to_string() });
    assert_eq!(
        actions,
        vec![Action::Fatal(FatalReason::AuthFailed { message: "bad token".to_string() })]
    );

    let step = supervise(&SupervisorEvent::ActorExited { auth_failure: true });
    assert!(step.set_disconnected);
    assert_eq!(step.delay_secs, RETRY_DELAY_SECS);
    assert_eq!(RETRY_DELAY_SECS, 5);
}

#[test]
fn scenario_call_service_resolves_ok() {
    let (mut a, _status) = ready_actor();

    let cmd = make_call_service("light", "turn_on", Some("{}".to_string()), None);
    let disposition = a.handle_command(cmd, 42);
    let id = match disposition {
        CommandDisposition::Dispatched { frame, id } => {
            assert!(matches!(frame, Message::CallService { id: 3, .. }));
            id
        }
        other => panic!("expected a dispatch, got {:?}", other),
    };
    assert_eq!(id, 3);

    let actions = a.handle_frame(Message::Result {
        id,
        success: true,
        result: "{\"done\":true}".to_string(),
        error: None,
    });
    assert_eq!(
        actions,
        vec![Action::Resolve {
            token: 42,
            outcome: CallOutcome::Success { payload: "{\"done\":true}".to_string() },
        }]
    );
    assert_eq!(
        interpret_outcome(CallOutcome::Success { payload: "{\"done\":true}".to_string() }),
        Ok("{\"done\":true}".to_string())
    );
}

#[test]
fn scenario_severed_transport_fails_pending_call() {
    let (mut a, _status) = ready_actor();

    let cmd = make_call_service("light", "turn_on", Some("{}".to_string()), None);
    let disposition = a.handle_command(cmd, 42);
    assert!(matches!(disposition, CommandDisposition::Dispatched { .. }));

    let actions = a.teardown();
    assert_eq!(
        actions,
        vec![Action::Resolve { token: 42, outcome: CallOutcome::ConnectionClosed }]
    );
    assert_eq!(
        interpret_outcome(CallOutcome::ConnectionClosed),
        Err(Error::ConnectionClosed)
    );
}

#[test]
fn commands_are_deferred_until_ready() {
    let mut a = fresh_actor();
    let cmd = make_call_service("light", "turn_on", None, None);
    assert_eq!(a.handle_command(cmd.clone(), 7), CommandDisposition::Deferred);

    let _ = a.handle_frame(Message::AuthRequired { ha_version: "1".to_string() });
    assert_eq!(a.handle_command(cmd, 7), CommandDisposition::Deferred);
    assert!(!a.ready());
}

#[test]
fn commands_without_id_slot_are_rejected() {
    let (mut a, _status) = ready_actor();
    let cmd = Message::Auth { access_token: "t".to_string() };
    assert_eq!(a.handle_command(cmd, 7), CommandDisposition::Rejected);
}

#[test]
fn ids_are_strictly_increasing_and_reset_per_connection() {
    let (mut a, _status) = ready_actor();
    // ids 1 and 2 went to the subscription and the snapshot fetch
    let d1 = a.handle_command(make_call_service("a", "b", None, None), 10);
    let d2 = a.handle_command(make_call_service("c", "d", None, None), 11);
    let ping = a.handle_ping_tick();
    let d3 = a.handle_command(make_call_service("e", "f", None, None), 12);
    let ids = [
        match d1 {
            CommandDisposition::Dispatched { id, .. } => id,
            _ => panic!("not dispatched"),
        },
        match d2 {
            CommandDisposition::Dispatched { id, .. } => id,
            _ => panic!("not dispatched"),
        },
        match ping.expect("a ping is due") {
            Message::Ping { id } => id,
            _ => panic!("not a ping"),
        },
        match d3 {
            CommandDisposition::Dispatched { id, .. } => id,
            _ => panic!("not dispatched"),
        },
    ];
    assert_eq!(ids, [3, 4, 5, 6]);

    let fresh = fresh_actor();
    assert_eq!(fresh.next_id, FIRST_ID);
    assert_eq!(fresh.phase, Phase::Unauthenticated);
}

#[test]
fn result_resolves_matching_call_exactly_once() {
    let (mut a, _status) = ready_actor();
    let disposition = a.handle_command(make_call_service("a", "b", None, None), 99);
    let id = match disposition {
        CommandDisposition::Dispatched { id, .. } => id,
        _ => panic!("not dispatched"),
    };

    let first = a.handle_frame(Message::Result {
        id,
        success: true,
        result: "1".to_string(),
        error: None,
    });
    assert_eq!(
        first,
        vec![Action::Resolve {
            token: 99,
            outcome: CallOutcome::Success { payload: "1".to_string() },
        }]
    );

    // the same id again: no pending call is left, so nothing resolves
    let second = a.handle_frame(Message::Result {
        id,
        success: true,
        result: "2".to_string(),
        error: None,
    });
    assert!(matches!(second[0], Action::Warn(_)));

    let unknown = a.handle_frame(Message::Result {
        id: 12345,
        success: true,
        result: "null".to_string(),
        error: None,
    });
    assert!(matches!(unknown[0], Action::Warn(_)));
}

#[test]
fn failed_call_surfaces_hub_error() {
    let (mut a, _status) = ready_actor();
    let disposition = a.handle_command(make_call_service("a", "b", None, None), 8);
    let id = match disposition {
        CommandDisposition::Dispatched { id, .. } => id,
        _ => panic!("not dispatched"),
    };
    let hub_error = home_control::messages::Error {
        code: "not_found".to_string(),
        message: "no such service".to_string(),
    };
    let actions = a.handle_frame(Message::Result {
        id,
        success: false,
        result: "null".to_string(),
        error: Some(hub_error.clone()),
    });
    assert_eq!(
        actions,
        vec![Action::Resolve {
            token: 8,
            outcome: CallOutcome::ServiceError { error: hub_error.clone() },
        }]
    );
    assert_eq!(
        interpret_outcome(CallOutcome::ServiceError { error: hub_error.clone() }),
        Err(Error::Service { error: hub_error })
    );
}

#[test]
fn failed_call_without_error_object_gets_placeholder() {
    let (mut a, _status) = ready_actor();
    let disposition = a.handle_command(make_call_service("a", "b", None, None), 8);
    let id = match disposition {
        CommandDisposition::Dispatched { id, .. } => id,
        _ => panic!("not dispatched"),
    };
    let actions = a.handle_frame(Message::Result {
        id,
        success: false,
        result: "null".to_string(),
        error: None,
    });
    match &actions[0] {
        Action::Resolve { token, outcome } => {
            assert_eq!(*token, 8);
            match outcome {
                CallOutcome::ServiceError { error } => {
                    assert_eq!(error.code, "unspecified");
                    assert_eq!(error.message, "no error information was present");
                }
                other => panic!("expected a service error, got {:?}", other),
            }
        }
        other => panic!("expected a resolution, got {:?}", other),
    }
}

#[test]
fn pong_resolves_pending_ping_call() {
    let (mut a, _status) = ready_actor();
    let disposition = a.handle_command(Message::Ping { id: 0 }, 21);
    let id = match disposition {
        CommandDisposition::Dispatched { id, .. } => id,
        _ => panic!("not dispatched"),
    };
    let actions = a.handle_frame(Message::Pong { id });
    match &actions[0] {
        Action::Resolve { token, outcome } => {
            assert_eq!(*token, 21);
            assert!(matches!(outcome, CallOutcome::Success { .. }));
        }
        other => panic!("expected a resolution, got {:?}", other),
    }
}

#[test]
fn keepalive_pong_and_unexpected_pong() {
    let (mut a, _status) = ready_actor();
    let ping = a.handle_ping_tick().expect("a ping is due");
    let id = match ping {
        Message::Ping { id } => id,
        _ => panic!("not a ping"),
    };
    // no second ping while one is outstanding
    assert!(a.handle_ping_tick().is_none());
    let actions = a.handle_frame(Message::Pong { id });
    assert_eq!(actions, vec![Action::LatencyPong { id }]);
    // answered: the next tick pings again
    assert!(a.handle_ping_tick().is_some());
    let stray = a.handle_frame(Message::Pong { id: 999 });
    assert!(matches!(stray[0], Action::Warn(_)));
}

#[test]
fn unexpected_frame_kinds_are_warned_not_fatal() {
    let (mut a, _status) = ready_actor();
    let actions = a.handle_frame(Message::GetStates { id: 1 });
    assert!(matches!(actions[0], Action::Warn(_)));
    let actions = a.handle_frame(Message::Auth { access_token: "x".to_string() });
    assert!(matches!(actions[0], Action::Warn(_)));
}

#[test]
fn connect_failure_retries_after_fixed_delay() {
    let step = supervise(&SupervisorEvent::ConnectFailed);
    assert!(!step.set_disconnected);
    assert_eq!(step.delay_secs, 5);
}

#[test]
fn failed_snapshot_fetch_is_fatal() {
    let mut a = fresh_actor();
    let _ = a.handle_frame(Message::AuthOk { ha_version: "1".to_string() });
    let _ = a.handle_frame(Message::Result {
        id: 1,
        success: true,
        result: "null".to_string(),
        error: None,
    });
    let actions = a.handle_frame(Message::Result {
        id: 2,
        success: false,
        result: "null".to_string(),
        error: None,
    });
    assert_eq!(actions, vec![Action::Fatal(FatalReason::InitFailed { error: None })]);
}

#[test]
fn failed_subscription_is_fatal() {
    let mut a = fresh_actor();
    let _ = a.handle_frame(Message::AuthOk { ha_version: "1".to_string() });
    let actions = a.handle_frame(Message::Result {
        id: 1,
        success: false,
        result: "null".to_string(),
        error: None,
    });
    assert_eq!(actions, vec![Action::Fatal(FatalReason::InitFailed { error: None })]);
}
