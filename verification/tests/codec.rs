//! The message codec: exact wire text of each outgoing kind, escaping,
//! decoding of incoming frames, and the round trip between the two.

use home_control::codec::encode_message;
use home_control::decode::{decode_message, decode_states};
use home_control::messages::{Context, Error, Event, Message, State, StateChangedData};
use home_control::text::u64_to_dec;

fn enc(m: &Message) -> String {
    encode_message(m).expect("an outgoing kind must encode")
}

#[test]
fn encode_auth_exact() {
    let m = Message::Auth { access_token: "secret".to_string() };
    assert_eq!(enc(&m), "{\"type\":\"auth\",\"access_token\":\"secret\"}");
}

#[test]
fn encode_call_service_exact() {
    let m = Message::CallService {
        id: 5,
        domain: "light".to_string(),
        service: "turn_on".to_string(),
        service_data: Some("{}".to_string()),
        target: Some("{\"entity_id\":\"light.kitchen\"}".to_string()),
    };
    assert_eq!(
        enc(&m),
        "{\"type\":\"call_service\",\"id\":5,\"domain\":\"light\",\"service\":\"turn_on\",\"service_data\":{},\"target\":{\"entity_id\":\"light.kitchen\"}}"
    );
}

#[test]
fn encode_call_service_null_payloads() {
    let m = Message::CallService {
        id: 1,
        domain: "light".to_string(),
        service: "toggle".to_string(),
        service_data: None,
        target: None,
    };
    assert_eq!(
        enc(&m),
        "{\"type\":\"call_service\",\"id\":1,\"domain\":\"light\",\"service\":\"toggle\",\"service_data\":null,\"target\":null}"
    );
}

#[test]
fn encode_subscribe_events_exact() {
    let m = Message::SubscribeEvents { id: 1, event_type: Some("state_changed".to_string()) };
    assert_eq!(
        enc(&m),
        "{\"type\":\"subscribe_events\",\"id\":1,\"event_type\":\"state_changed\"}"
    );
    let all = Message::SubscribeEvents { id: 2, event_type: None };
    assert_eq!(enc(&all), "{\"type\":\"subscribe_events\",\"id\":2,\"event_type\":null}");
}

#[test]
fn encode_subscribe_trigger_exact() {
    let m = Message::SubscribeTrigger { id: 3, trigger: "{\"platform\":\"state\"}".to_string() };
    assert_eq!(
        enc(&m),
        "{\"type\":\"subscribe_trigger\",\"id\":3,\"trigger\":{\"platform\":\"state\"}}"
    );
}

#[test]
fn encode_ping_and_get_states_exact() {
    assert_eq!(enc(&Message::Ping { id: 7 }), "{\"type\":\"ping\",\"id\":7}");
    assert_eq!(enc(&Message::GetStates { id: 2 }), "{\"type\":\"get_states\",\"id\":2}");
    assert_eq!(enc(&Message::Ping { id: 0 }), "{\"type\":\"ping\",\"id\":0}");
    assert_eq!(
        enc(&Message::Ping { id: u64::MAX }),
        "{\"type\":\"ping\",\"id\":18446744073709551615}"
    );
}

#[test]
fn encode_escapes_strings() {
    let m = Message::Auth { access_token: "a\"b\\c\nd\re\tf\u{1}g".to_string() };
    assert_eq!(
        enc(&m),
        "{\"type\":\"auth\",\"access_token\":\"a\\\"b\\\\c\\nd\\re\\tf\\u0001g\"}"
    );
}

#[test]
fn encode_incoming_kinds_refused() {
    assert!(encode_message(&Message::AuthRequired { ha_version: "1".to_string() }).is_none());
    assert!(encode_message(&Message::AuthOk { ha_version: "1".to_string() }).is_none());
    assert!(encode_message(&Message::AuthInvalid { message: "m".to_string() }).is_none());
    assert!(encode_message(&Message::Pong { id: 1 }).is_none());
    assert!(
        encode_message(
            &Message::Result { id: 1, success: true, result: "null".to_string(), error: None }
        )
        .is_none()
    );
}

#[test]
fn u64_to_dec_exact() {
    assert_eq!(u64_to_dec(0), "0");
    assert_eq!(u64_to_dec(7), "7");
    assert_eq!(u64_to_dec(10), "10");
    assert_eq!(u64_to_dec(123456789), "123456789");
    assert_eq!(u64_to_dec(u64::MAX), "18446744073709551615");
}

#[test]
fn decode_auth_frames() {
    assert_eq!(
        decode_message("{\"type\":\"auth_required\",\"ha_version\":\"2024.1\"}"),
        Some(Message::AuthRequired { ha_version: "2024.1".to_string() })
    );
    assert_eq!(
        decode_message("{\"type\":\"auth_ok\",\"ha_version\":\"2024.1\"}"),
        Some(Message::AuthOk { ha_version: "2024.1".to_string() })
    );
    assert_eq!(
        decode_message("{\"type\":\"auth_invalid\",\"message\":\"bad token\"}"),
        Some(Message::AuthInvalid { message: "bad token".to_string() })
    );
}

#[test]
fn decode_result_success() {
    let m = decode_message("{\"id\":5,\"type\":\"result\",\"success\":true,\"result\":{\"a\":1}}");
    assert_eq!(
        m,
        Some(Message::Result {
            id: 5,
            success: true,
            result: "{\"a\":1}".to_string(),
            error: None,
        })
    );
}

#[test]
fn decode_result_defaults_missing_payload_to_null() {
    let m = decode_message("{\"type\":\"result\",\"id\":5,\"success\":true}");
    assert_eq!(
        m,
        Some(Message::Result { id: 5, success: true, result: "null".to_string(), error: None })
    );
}

#[test]
fn decode_result_failure_with_error() {
    let m = decode_message(
        "{\"type\":\"result\",\"id\":6,\"success\":false,\"result\":null,\"error\":{\"code\":\"not_found\",\"message\":\"no such service\"}}",
    );
    assert_eq!(
        m,
        Some(Message::Result {
            id: 6,
            success: false,
            result: "null".to_string(),
            error: Some(Error {
                code: "not_found".to_string(),
                message: "no such service".to_string(),
            }),
        })
    );
}

#[test]
fn decode_pong() {
    assert_eq!(decode_message("{\"type\":\"pong\",\"id\":9}"), Some(Message::Pong { id: 9 }));
}

#[test]
fn decode_event_state_changed() {
    let text = "{\"type\":\"event\",\"id\":2,\"event\":{\"event_type\":\"state_changed\",\"data\":{\"entity_id\":\"light.kitchen\",\"old_state\":null,\"new_state\":{\"entity_id\":\"light.kitchen\",\"attributes\":{},\"context\":{\"id\":\"c1\",\"parent_id\":null,\"user_id\":null},\"last_changed\":\"2024-01-01T00:00:00+00:00\",\"last_updated\":\"2024-01-01T00:00:00+00:00\",\"state\":\"on\"}},\"context\":{\"id\":\"c1\",\"parent_id\":null,\"user_id\":null},\"origin\":\"LOCAL\",\"time_fired\":\"2024-01-01T00:00:00+00:00\"}}";
    let ctx = Context { id: "c1".to_string(), parent_id: None, user_id: None };
    let expected = Message::Event {
        id: 2,
        event: Event::StateChanged {
            context: ctx.clone(),
            data: StateChangedData {
                entity_id: "light.kitchen".to_string(),
                old_state: None,
                new_state: Some(State {
                    entity_id: "light.kitchen".to_string(),
                    attributes: "{}".to_string(),
                    context: ctx,
                    last_changed: "2024-01-01T00:00:00+00:00".to_string(),
                    last_updated: "2024-01-01T00:00:00+00:00".to_string(),
                    state: "on".to_string(),
                }),
            },
            origin: "LOCAL".to_string(),
            time_fired: "2024-01-01T00:00:00+00:00".to_string(),
        },
    };
    assert_eq!(decode_message(text), Some(expected));
}

#[test]
fn decode_rejects_malformed_and_unknown() {
    assert_eq!(decode_message("{nope"), None);
    assert_eq!(decode_message("{\"type\":\"mystery\",\"id\":1}"), None);
    assert_eq!(decode_message("{\"id\":1}"), None);
    assert_eq!(decode_message("{\"type\":\"result\",\"id\":1}"), None);
    assert_eq!(decode_message("{\"type\":\"pong\",\"id\":\"nine\"}"), None);
    assert_eq!(decode_message("[]"), None);
}

#[test]
fn round_trip_outgoing_kinds() {
    let frames = vec![
        Message::Auth { access_token: "tok\"en\\x".to_string() },
        Message::CallService {
            id: 4,
            domain: "light".to_string(),
            service: "turn_off".to_string(),
            service_data: Some("{}".to_string()),
            target: Some("{\"entity_id\":\"light.attic\"}".to_string()),
        },
        Message::SubscribeEvents { id: 1, event_type: Some("state_changed".to_string()) },
        Message::SubscribeEvents { id: 2, event_type: None },
        Message::SubscribeTrigger { id: 3, trigger: "{\"platform\":\"state\"}".to_string() },
        Message::Ping { id: 11 },
        Message::GetStates { id: 12 },
    ];
    for frame in frames {
        let text = enc(&frame);
        assert_eq!(decode_message(&text), Some(frame));
    }
}

#[test]
fn decode_states_array() {
    let payload = "[{\"entity_id\":\"light.kitchen\",\"attributes\":{\"brightness\":1},\"context\":{\"id\":\"c1\",\"parent_id\":null,\"user_id\":null},\"last_changed\":\"t1\",\"last_updated\":\"t2\",\"state\":\"on\"}]";
    let states = decode_states(payload).expect("a state array must decode");
    assert_eq!(states.len(), 1);
    assert_eq!(states[0].entity_id, "light.kitchen");
    assert_eq!(states[0].attributes, "{\"brightness\":1}");
    assert_eq!(states[0].state, "on");
    assert_eq!(decode_states("{\"not\":\"an array\"}"), None);
    assert_eq!(decode_states("[{\"state\":\"on\"}]"), None);
}

#[test]
fn decode_rejects_non_integer_ids() {
    assert_eq!(decode_message("{\"type\":\"pong\",\"id\":1.5}"), None);
    assert_eq!(decode_message("{\"type\":\"pong\",\"id\":-3}"), None);
    assert_eq!(decode_message("{\"type\":\"pong\",\"id\":18446744073709551616}"), None);
    assert_eq!(
        decode_message("{\"type\":\"pong\",\"id\":18446744073709551615}"),
        Some(Message::Pong { id: u64::MAX })
    );
}

#[test]
fn decode_captures_nested_payloads_as_compact_text() {
    let m = decode_message(
        "{\"type\":\"result\",\"id\":1,\"success\":true,\"result\":{\"a\": [1, 2, {\"b\": \"x\\\"y\"}]}}",
    );
    assert_eq!(
        m,
        Some(Message::Result {
            id: 1,
            success: true,
            result: "{\"a\":[1,2,{\"b\":\"x\\\"y\"}]}".to_string(),
            error: None,
        })
    );
}

#[test]
fn decode_payload_object_keys_come_back_sorted() {
    // the parser holds object fields in key order; the captured text shows it
    let m = decode_message(
        "{\"type\":\"result\",\"id\":1,\"success\":true,\"result\":{\"b\":1,\"a\":2}}",
    );
    assert_eq!(
        m,
        Some(Message::Result {
            id: 1,
            success: true,
            result: "{\"a\":2,\"b\":1}".to_string(),
            error: None,
        })
    );
}
