//! The controller's command builders, the correlation table on its own,
//! transport frame classification, and the panel's plain data types.

use home_control::api::ApiBool;
use home_control::config::GpioConfig;
use home_control::controller::{
    entity_target, hub_ws_url, make_call_service, make_light_set, make_light_toggle, make_ping,
    make_subscribe_trigger, state_changed_subscription, Subscription,
};
use home_control::correlation::CorrelationTable;
use home_control::gpio_controller::GpioPin;
use home_control::messages::{Error, Message};
use home_control::transport::{classify_frame, FrameStep, WireFrame};

#[test]
fn hub_url_has_fixed_scheme_and_path() {
    assert_eq!(hub_ws_url("hub.local:8123"), "wss://hub.local:8123/api/websocket");
}

#[test]
fn subscriptions_expand_to_event_types() {
    assert_eq!(Subscription::All.to_event_types(), vec![None]);
    let spec = Subscription::Specific(vec!["state_changed".to_string(), "call_service".to_string()]);
    assert_eq!(
        spec.to_event_types(),
        vec![Some("state_changed".to_string()), Some("call_service".to_string())]
    );
    assert_eq!(
        state_changed_subscription().to_event_types(),
        vec![Some("state_changed".to_string())]
    );
}

#[test]
fn command_builders_use_placeholder_ids() {
    assert_eq!(make_ping(), Message::Ping { id: 0 });
    assert_eq!(
        make_subscribe_trigger("{\"platform\":\"state\"}".to_string()),
        Message::SubscribeTrigger { id: 0, trigger: "{\"platform\":\"state\"}".to_string() }
    );
    assert_eq!(
        make_call_service("light", "turn_on", Some("{}".to_string()), None),
        Message::CallService {
            id: 0,
            domain: "light".to_string(),
            service: "turn_on".to_string(),
            service_data: Some("{}".to_string()),
            target: None,
        }
    );
}

#[test]
fn light_commands_select_their_entity() {
    assert_eq!(entity_target("light.kitchen"), "{\"entity_id\":\"light.kitchen\"}");
    assert_eq!(
        make_light_set("light.kitchen", true),
        Message::CallService {
            id: 0,
            domain: "light".to_string(),
            service: "turn_on".to_string(),
            service_data: Some("{}".to_string()),
            target: Some("{\"entity_id\":\"light.kitchen\"}".to_string()),
        }
    );
    assert_eq!(
        make_light_set("light.kitchen", false),
        Message::CallService {
            id: 0,
            domain: "light".to_string(),
            service: "turn_off".to_string(),
            service_data: Some("{}".to_string()),
            target: Some("{\"entity_id\":\"light.kitchen\"}".to_string()),
        }
    );
    assert_eq!(
        make_light_toggle("light.attic"),
        Message::CallService {
            id: 0,
            domain: "light".to_string(),
            service: "toggle".to_string(),
            service_data: Some("{}".to_string()),
            target: Some("{\"entity_id\":\"light.attic\"}".to_string()),
        }
    );
}

#[test]
fn correlation_inserts_resolves_once_and_drains() {
    let mut t = CorrelationTable::new();
    assert_eq!(t.len(), 0);
    t.insert(1, 100);
    t.insert(2, 200);
    assert_eq!(t.len(), 2);
    assert_eq!(t.resolve(1), Some(100));
    assert_eq!(t.resolve(1), None);
    assert_eq!(t.len(), 1);
    t.insert(3, 300);
    assert_eq!(t.drain(), vec![200, 300]);
    assert_eq!(t.len(), 0);
    assert_eq!(t.resolve(2), None);
}

#[test]
fn frames_classify_by_kind() {
    let text = WireFrame::Text("{\"type\":\"pong\",\"id\":4}".to_string());
    assert_eq!(classify_frame(text), FrameStep::Deliver(Message::Pong { id: 4 }));

    let garbled = WireFrame::Text("{oops".to_string());
    assert_eq!(classify_frame(garbled), FrameStep::SkipMalformed { text: "{oops".to_string() });

    let ping = WireFrame::PingFrame(vec![1, 2, 3]);
    assert_eq!(classify_frame(ping), FrameStep::ReplyPong(vec![1, 2, 3]));

    let close = WireFrame::CloseFrame(Some((1001, "going away".to_string())));
    assert_eq!(
        classify_frame(close),
        FrameStep::FatalClosed(Some((1001, "going away".to_string())))
    );
    assert_eq!(classify_frame(WireFrame::CloseFrame(None)), FrameStep::FatalClosed(None));

    // unexpected frame kinds are ignored, never fatal
    assert_eq!(classify_frame(WireFrame::Binary(vec![0])), FrameStep::SkipUnexpected);
    assert_eq!(classify_frame(WireFrame::PongFrame(vec![])), FrameStep::SkipUnexpected);
}

#[test]
fn message_ids_inject_only_into_id_bearing_kinds() {
    let mut call = make_call_service("light", "toggle", None, None);
    assert!(call.inject_id(17));
    assert!(matches!(call, Message::CallService { id: 17, .. }));

    let mut auth = Message::Auth { access_token: "t".to_string() };
    assert!(!auth.inject_id(17));
    assert_eq!(auth, Message::Auth { access_token: "t".to_string() });
}

#[test]
fn hub_error_placeholder_and_rendering() {
    let e = Error::unspecified();
    assert_eq!(e.code, "unspecified");
    assert_eq!(e.message, "no error information was present");
    assert_eq!(Error::default(), Error::unspecified());
    let shaped = Error { code: "404".to_string(), message: "not found".to_string() };
    assert_eq!(shaped.to_text(), "E404: not found");
    assert_eq!(
        home_control::error::Error::Service { error: shaped }.to_text(),
        "service call failed: E404: not found"
    );
    assert_eq!(
        home_control::error::Error::ConnectionClosed.to_text(),
        "connection closed"
    );
    assert_eq!(
        home_control::error::Error::NotDispatched.to_text(),
        "command was not dispatched"
    );
}

#[test]
fn api_bools_read_like_json() {
    assert!(ApiBool::Bool(true).to_bool());
    assert!(!ApiBool::Bool(false).to_bool());
    assert!(ApiBool::Integer(1).to_bool());
    assert!(ApiBool::Integer(-1).to_bool());
    assert!(!ApiBool::Integer(0).to_bool());
}

#[test]
fn pins_map_to_configured_numbers() {
    let config = GpioConfig::default();
    assert_eq!(GpioPin::RedLed.into_pin_number(&config), 17);
    assert_eq!(GpioPin::GreenLed.into_pin_number(&config), 27);
    assert_eq!(GpioPin::Buzzer.into_pin_number(&config), 18);
    assert_eq!(GpioPin::Trigger.into_pin_number(&config), 24);
    assert_eq!(GpioPin::Echo.into_pin_number(&config), 23);
    let rewired = GpioConfig { red_led_pin: 5, ..config };
    assert_eq!(GpioPin::RedLed.into_pin_number(&rewired), 5);
}
