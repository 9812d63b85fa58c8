//! What a holder of a controller handle computes: the address of the
//! hub's realtime endpoint, the command frames behind each operation —
//! every one enqueued with a placeholder id, assigned for real only at
//! dispatch — and the reading of a finished call's outcome. The handle's
//! queueing and waiting live in the runtime; every value that crosses it
//! is built and interpreted here.

use vstd::prelude::*;

use crate::actor::CallOutcome;
use crate::codec::spec_quoted;
use crate::error::Error;
use crate::messages::Message;
use crate::text::escape_json;

verus! {

/// The secure websocket address of the hub's realtime endpoint.
pub fn hub_ws_url(endpoint: &str) -> (r: String)
    ensures
        r@ == "wss://"@ + endpoint@ + "/api/websocket"@,
{
    let mut s = String::from_str("wss://");
    s.append(endpoint);
    s.append("/api/websocket");
    s
}

/// Which events the client subscribes to, fixed at construction.
#[derive(Debug, Clone, PartialEq, Eq)]
pub enum Subscription {
    /// Every event type.
    All,
    /// Exactly these event types, one subscribe call each.
    Specific(Vec<String>),
}

impl Subscription {
    /// The subscribe calls this subscription issues, one entry each; an
    /// entry of `None` subscribes to every event type.
    pub fn to_event_types(&self) -> (r: Vec<Option<String>>)
        ensures
            match self {
                Subscription::All => r@ =~= seq![None::<String>],
                Subscription::Specific(l) => r@.len() == l@.len() && forall|i: int|
                    0 <= i < l@.len() ==> r@[i] == Some(l@[i]),
            },
    {
        match self {
            Subscription::All => {
                let mut v: Vec<Option<String>> = Vec::new();
                v.push(None);
                v
            },
            Subscription::Specific(l) => {
                let mut v: Vec<Option<String>> = Vec::new();
                let n = l.len();
                let mut i: usize = 0;
                while i < n
                    invariant
                        n == l@.len(),
                        i <= n,
                        v@.len() == i,
                        forall|j: int| 0 <= j < i ==> v@[j] == Some(l@[j]),
                    decreases n - i,
                {
                    v.push(Some(l[i].clone()));
                    i += 1;
                }
                v
            },
        }
    }
}

/// The subscription the client uses by default: state-change
/// notifications alone.
pub fn state_changed_subscription() -> (r: Subscription)
    ensures
        r matches Subscription::Specific(l) && l@.len() == 1 && l@[0]@ == "state_changed"@,
{
    let mut l: Vec<String> = Vec::new();
    l.push(String::from_str("state_changed"));
    Subscription::Specific(l)
}

/// A service call, to be enqueued; the id is a placeholder until
/// dispatch.
pub fn make_call_service(
    domain: &str,
    service: &str,
    service_data: Option<String>,
    target: Option<String>,
) -> (r: Message)
    ensures
        r matches Message::CallService { id, domain: d, service: s, service_data: sd, target: t }
            && id == 0 && d@ == domain@ && s@ == service@ && sd == service_data && t == target,
{
    Message::CallService {
        id: 0,
        domain: String::from_str(domain),
        service: String::from_str(service),
        service_data,
        target,
    }
}

/// The service-call target selecting one entity, as JSON text.
pub fn entity_target(entity_id: &str) -> (r: String)
    ensures
        r@ =~= "{\"entity_id\":"@ + spec_quoted(entity_id@) + "}"@,
{
    let mut s = String::from_str("{\"entity_id\":");
    s.push('"');
    let body = escape_json(entity_id);
    s.append(body.as_str());
    s.push('"');
    s.append("}");
    s
}

/// The call that turns a light on or off.
pub fn make_light_set(entity_id: &str, status: bool) -> (r: Message)
    ensures
        r matches Message::CallService { id, domain, service, service_data, target } && id == 0
            && domain@ == "light"@ && service@ == (if status {
            "turn_on"@
        } else {
            "turn_off"@
        }) && (service_data matches Some(d) && d@ == "{}"@) && (target matches Some(t) && t@
            == "{\"entity_id\":"@ + spec_quoted(entity_id@) + "}"@),
{
    let service = if status {
        "turn_on"
    } else {
        "turn_off"
    };
    make_call_service(
        "light",
        service,
        Some(String::from_str("{}")),
        Some(entity_target(entity_id)),
    )
}

/// The call that toggles a light.
pub fn make_light_toggle(entity_id: &str) -> (r: Message)
    ensures
        r matches Message::CallService { id, domain, service, service_data, target } && id == 0
            && domain@ == "light"@ && service@ == "toggle"@ && (service_data matches Some(d) && d@
            == "{}"@) && (target matches Some(t) && t@ == "{\"entity_id\":"@ + spec_quoted(
            entity_id@,
        ) + "}"@),
{
    make_call_service(
        "light",
        "toggle",
        Some(String::from_str("{}")),
        Some(entity_target(entity_id)),
    )
}

/// A trigger subscription, to be enqueued; the trigger is JSON text.
pub fn make_subscribe_trigger(trigger: String) -> (r: Message)
    ensures
        r == (Message::SubscribeTrigger { id: 0, trigger }),
{
    Message::SubscribeTrigger { id: 0, trigger }
}

/// A round-trip measurement call, to be enqueued like any other command.
pub fn make_ping() -> (r: Message)
    ensures
        r == (Message::Ping { id: 0 }),
{
    Message::Ping { id: 0 }
}

/// What a finished call means to its caller: a successful result hands
/// its payload through; a failed one surfaces the hub's error as-is; a
/// call cut off by teardown fails as connection-closed.
pub fn interpret_outcome(outcome: CallOutcome) -> (r: Result<String, Error>)
    ensures
        match outcome {
            CallOutcome::Success { payload } => r matches Ok(p) && p == payload,
            CallOutcome::ServiceError { error } => r matches Err(e) && e == (Error::Service {
                error,
            }),
            CallOutcome::ConnectionClosed => r matches Err(e) && e == Error::ConnectionClosed,
        },
{
    match outcome {
        CallOutcome::Success { payload } => Ok(payload),
        CallOutcome::ServiceError { error } => Err(Error::Service { error }),
        CallOutcome::ConnectionClosed => Err(Error::ConnectionClosed),
    }
}

} // verus!
