//! The entity cache behind the published status, and the bounded event
//! fan-out with its loss reporting.

use home_control::broadcast::{Broadcaster, Recv, EVENT_CHANNEL_CAPACITY};
use home_control::cache::{EntityCache, Status};
use home_control::decode::decode_states;
use home_control::messages::{Context, Event, State, StateChangedData};

fn ctx() -> Context {
    Context { id: "c1".to_string(), parent_id: None, user_id: None }
}

fn state(entity_id: &str, on_off: &str) -> State {
    State {
        entity_id: entity_id.to_string(),
        attributes: "{}".to_string(),
        context: ctx(),
        last_changed: "t1".to_string(),
        last_updated: "t1".to_string(),
        state: on_off.to_string(),
    }
}

fn change(entity_id: &str, new: Option<State>) -> Event {
    Event::StateChanged {
        context: ctx(),
        data: StateChangedData {
            entity_id: entity_id.to_string(),
            old_state: None,
            new_state: new,
        },
        origin: "LOCAL".to_string(),
        time_fired: "t1".to_string(),
    }
}

#[test]
fn scenario_state_changed_turns_entity_on() {
    let mut status = Status::Connected { entities: EntityCache::new() };
    assert_eq!(status.entity_is_on("light.kitchen"), None);
    status.apply_event(&change("light.kitchen", Some(state("light.kitchen", "on"))));
    assert_eq!(status.entity_is_on("light.kitchen"), Some(true));
    status.apply_event(&change("light.kitchen", Some(state("light.kitchen", "off"))));
    assert_eq!(status.entity_is_on("light.kitchen"), Some(false));
}

#[test]
fn cache_keeps_latest_state_per_entity_and_replay_is_idempotent() {
    let mut cache = EntityCache::new();
    cache.upsert(state("light.kitchen", "off"));
    cache.upsert(state("light.attic", "on"));
    cache.upsert(state("light.kitchen", "on"));
    assert_eq!(cache.len(), 2);
    assert_eq!(cache.get("light.kitchen").unwrap().state, "on");
    assert_eq!(cache.get("light.attic").unwrap().state, "on");
    assert_eq!(cache.get("light.cellar"), None);

    // replaying the same upsert changes nothing
    let before: Vec<State> = ["light.kitchen", "light.attic"]
        .iter()
        .map(|id| cache.get(id).unwrap().clone())
        .collect();
    cache.upsert(state("light.kitchen", "on"));
    assert_eq!(cache.len(), 2);
    assert_eq!(cache.get("light.kitchen").unwrap(), &before[0]);
    assert_eq!(cache.get("light.attic").unwrap(), &before[1]);
}

#[test]
fn null_new_state_and_disconnected_status_change_nothing() {
    let mut status = Status::Connected { entities: EntityCache::new() };
    status.apply_event(&change("light.kitchen", None));
    assert_eq!(status.entity_is_on("light.kitchen"), None);

    let mut disconnected = Status::Disconnected;
    disconnected.apply_event(&change("light.kitchen", Some(state("light.kitchen", "on"))));
    assert_eq!(disconnected.entity_is_on("light.kitchen"), None);
    assert!(!disconnected.connected());
}

#[test]
fn snapshot_replaces_status_with_exactly_its_entities() {
    let mut status = Status::Disconnected;
    let payload = "[{\"entity_id\":\"light.kitchen\",\"attributes\":{},\"context\":{\"id\":\"c1\",\"parent_id\":null,\"user_id\":null},\"last_changed\":\"t\",\"last_updated\":\"t\",\"state\":\"on\"},{\"entity_id\":\"light.attic\",\"attributes\":{},\"context\":{\"id\":\"c2\",\"parent_id\":null,\"user_id\":null},\"last_changed\":\"t\",\"last_updated\":\"t\",\"state\":\"off\"}]";
    status.load_snapshot(decode_states(payload).expect("the snapshot must decode"));
    assert_eq!(status.entity_is_on("light.kitchen"), Some(true));
    assert_eq!(status.entity_is_on("light.attic"), Some(false));

    assert_eq!(decode_states("{\"not\":\"an array\"}"), None);
}

#[test]
fn textual_states_convert_to_bool() {
    assert!(state("x", "on").is_on());
    assert!(state("x", "1").is_on());
    assert!(state("x", "true").is_on());
    assert!(!state("x", "off").is_on());
    assert!(!state("x", "0").is_on());
    assert!(!state("x", "ON").is_on());
}

#[test]
fn subscribers_read_in_order_and_independently() {
    let mut b = Broadcaster::new(EVENT_CHANNEL_CAPACITY);
    let mut s1 = b.subscribe();
    b.publish(change("a", None));
    let mut s2 = b.subscribe();
    b.publish(change("b", None));

    assert_eq!(b.recv(&mut s1), Recv::Received(change("a", None)));
    assert_eq!(b.recv(&mut s1), Recv::Received(change("b", None)));
    assert_eq!(b.recv(&mut s1), Recv::Empty);

    // the later subscriber sees only what came after it subscribed
    assert_eq!(b.recv(&mut s2), Recv::Received(change("b", None)));
    assert_eq!(b.recv(&mut s2), Recv::Empty);
}

#[test]
fn scenario_slow_subscriber_is_told_about_loss_and_publisher_never_blocks() {
    let mut b = Broadcaster::new(EVENT_CHANNEL_CAPACITY);
    let mut slow = b.subscribe();
    let published: u64 = 300;
    for _ in 0..published {
        // publish returns normally every time: no subscriber can block it
        b.publish(change("a", None));
    }
    let missed = published - EVENT_CHANNEL_CAPACITY as u64;
    assert_eq!(b.recv(&mut slow), Recv::Lagged { missed });
    // after the loss report, reading resumes with the oldest retained event
    let mut seen: u64 = 0;
    loop {
        match b.recv(&mut slow) {
            Recv::Received(_) => seen += 1,
            Recv::Empty => break,
            Recv::Lagged { .. } => panic!("no further loss was expected"),
        }
    }
    assert_eq!(seen, EVENT_CHANNEL_CAPACITY as u64);
}

#[test]
fn event_describe_renders_transition() {
    let e = Event::StateChanged {
        context: ctx(),
        data: StateChangedData {
            entity_id: "light.kitchen".to_string(),
            old_state: Some(state("light.kitchen", "off")),
            new_state: Some(state("light.kitchen", "on")),
        },
        origin: "LOCAL".to_string(),
        time_fired: "t1".to_string(),
    };
    assert_eq!(e.describe(), "light.kitchen: off -> on");
    assert_eq!(change("light.attic", None).describe(), "light.attic:  -> ");
}

#[test]
fn snapshot_duplicate_entity_ids_later_wins() {
    let payload = "[{\"entity_id\":\"light.kitchen\",\"attributes\":{},\"context\":{\"id\":\"c1\",\"parent_id\":null,\"user_id\":null},\"last_changed\":\"t\",\"last_updated\":\"t\",\"state\":\"off\"},{\"entity_id\":\"light.kitchen\",\"attributes\":{},\"context\":{\"id\":\"c2\",\"parent_id\":null,\"user_id\":null},\"last_changed\":\"t\",\"last_updated\":\"t\",\"state\":\"on\"}]";
    let mut status = Status::Disconnected;
    status.load_snapshot(decode_states(payload).expect("the snapshot must decode"));
    assert_eq!(status.entity_is_on("light.kitchen"), Some(true));
}

#[test]
fn fresh_snapshot_replaces_earlier_entities_wholesale() {
    let mut status = Status::Connected { entities: EntityCache::new() };
    status.apply_event(&change("light.old", Some(state("light.old", "on"))));
    assert_eq!(status.entity_is_on("light.old"), Some(true));

    // a reconnect publishes a fresh snapshot: nothing of the old cache survives
    let payload = "[{\"entity_id\":\"light.new\",\"attributes\":{},\"context\":{\"id\":\"c1\",\"parent_id\":null,\"user_id\":null},\"last_changed\":\"t\",\"last_updated\":\"t\",\"state\":\"on\"}]";
    status.load_snapshot(decode_states(payload).expect("the snapshot must decode"));
    assert_eq!(status.entity_is_on("light.old"), None);
    assert_eq!(status.entity_is_on("light.new"), Some(true));
}
