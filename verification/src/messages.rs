//! The tagged protocol frames exchanged with the hub, and the entity data
//! they carry. JSON payloads that the client never inspects (service data,
//! call targets, triggers, results, attributes) are carried as raw JSON
//! text.

use vstd::prelude::*;

verus! {

/// Context attached by the hub to events and entity states.
#[derive(Debug, Clone, PartialEq, Eq)]
pub struct Context {
    pub id: String,
    pub parent_id: Option<String>,
    pub user_id: Option<String>,
}

/// The last known state of one entity on the hub. Attributes are carried
/// as raw JSON text; timestamps as the hub's ISO-8601 strings.
#[derive(Debug, Clone, PartialEq, Eq)]
pub struct State {
    pub entity_id: String,
    pub attributes: String,
    pub context: Context,
    pub last_changed: String,
    pub last_updated: String,
    pub state: String,
}

/// The fields of a state-change notification.
#[derive(Debug, Clone, PartialEq, Eq)]
pub struct StateChangedData {
    pub entity_id: String,
    pub old_state: Option<State>,
    pub new_state: Option<State>,
}

/// An asynchronous notification from the hub.
#[derive(Debug, Clone, PartialEq, Eq)]
pub enum Event {
    StateChanged { context: Context, data: StateChangedData, origin: String, time_fired: String },
}

/// The error object a failed call carries.
#[derive(Debug, Clone, PartialEq, Eq)]
pub struct Error {
    pub code: String,
    pub message: String,
}

/// A protocol frame. Every id-bearing variant carries a `u64` id that is
/// settable until the frame is dispatched.
#[derive(Debug, Clone, PartialEq, Eq)]
pub enum Message {
    AuthRequired { ha_version: String },
    Auth { access_token: String },
    AuthOk { ha_version: String },
    AuthInvalid { message: String },
    CallService {
        id: u64,
        domain: String,
        service: String,
        service_data: Option<String>,
        target: Option<String>,
    },
    Result { id: u64, success: bool, result: String, error: Option<Error> },
    SubscribeEvents { id: u64, event_type: Option<String> },
    SubscribeTrigger { id: u64, trigger: String },
    Ping { id: u64 },
    Pong { id: u64 },
    Event { id: u64, event: Event },
    GetStates { id: u64 },
}

impl Message {
    /// Whether this frame kind carries a correlation id that the actor
    /// assigns at dispatch. The authentication frames carry none.
    pub open spec fn spec_has_settable_id(self) -> bool {
        match self {
            Message::AuthRequired { .. }
            | Message::Auth { .. }
            | Message::AuthOk { .. }
            | Message::AuthInvalid { .. } => false,
            _ => true,
        }
    }

    /// The same frame with its id replaced.
    pub open spec fn spec_with_id(self, new_id: u64) -> Message {
        match self {
            Message::CallService { id, domain, service, service_data, target } => {
                Message::CallService { id: new_id, domain, service, service_data, target }
            },
            Message::Result { id, success, result, error } => {
                Message::Result { id: new_id, success, result, error }
            },
            Message::SubscribeEvents { id, event_type } => {
                Message::SubscribeEvents { id: new_id, event_type }
            },
            Message::SubscribeTrigger { id, trigger } => {
                Message::SubscribeTrigger { id: new_id, trigger }
            },
            Message::Ping { id } => Message::Ping { id: new_id },
            Message::Pong { id } => Message::Pong { id: new_id },
            Message::Event { id, event } => Message::Event { id: new_id, event },
            Message::GetStates { id } => Message::GetStates { id: new_id },
            _ => self,
        }
    }

    /// The id the frame carries, where it carries one.
    pub open spec fn spec_id(self) -> Option<u64> {
        match self {
            Message::CallService { id, .. }
            | Message::Result { id, .. }
            | Message::SubscribeEvents { id, .. }
            | Message::SubscribeTrigger { id, .. }
            | Message::Ping { id }
            | Message::Pong { id }
            | Message::Event { id, .. }
            | Message::GetStates { id } => Some(id),
            _ => None,
        }
    }

    /// Replaces the frame's id in place, at the moment of dispatch.
    /// Returns whether the frame kind carries an id at all; an
    /// authentication frame is left unchanged.
    pub fn inject_id(&mut self, new_id: u64) -> (r: bool)
        ensures
            r == old(self).spec_has_settable_id(),
            r ==> *final(self) == old(self).spec_with_id(new_id),
            !r ==> *final(self) == *old(self),
    {
        match self {
            Message::AuthRequired { .. }
            | Message::Auth { .. }
            | Message::AuthOk { .. }
            | Message::AuthInvalid { .. } => false,
            Message::CallService { id, .. } => {
                *id = new_id;
                true
            },
            Message::Result { id, .. } => {
                *id = new_id;
                true
            },
            Message::SubscribeEvents { id, .. } => {
                *id = new_id;
                true
            },
            Message::SubscribeTrigger { id, .. } => {
                *id = new_id;
                true
            },
            Message::Ping { id } => {
                *id = new_id;
                true
            },
            Message::Pong { id } => {
                *id = new_id;
                true
            },
            Message::Event { id, .. } => {
                *id = new_id;
                true
            },
            Message::GetStates { id } => {
                *id = new_id;
                true
            },
        }
    }
}

/// A clone of an optional string that provably preserves the value.
pub fn clone_opt_string(s: &Option<String>) -> (r: Option<String>)
    ensures
        r == *s,
{
    match s {
        Some(x) => Some(x.clone()),
        None => None,
    }
}

/// A clone of a context that provably preserves every field.
pub fn clone_context(c: &Context) -> (r: Context)
    ensures
        r == *c,
{
    Context {
        id: c.id.clone(),
        parent_id: clone_opt_string(&c.parent_id),
        user_id: clone_opt_string(&c.user_id),
    }
}

/// A clone of an entity state that provably preserves every field.
pub fn clone_state(s: &State) -> (r: State)
    ensures
        r == *s,
{
    State {
        entity_id: s.entity_id.clone(),
        attributes: s.attributes.clone(),
        context: clone_context(&s.context),
        last_changed: s.last_changed.clone(),
        last_updated: s.last_updated.clone(),
        state: s.state.clone(),
    }
}

/// A clone of an optional entity state that provably preserves the value.
pub fn clone_opt_state(s: &Option<State>) -> (r: Option<State>)
    ensures
        r == *s,
{
    match s {
        Some(x) => Some(clone_state(x)),
        None => None,
    }
}

/// A clone of an event that provably preserves every field.
pub fn clone_event(e: &Event) -> (r: Event)
    ensures
        r == *e,
{
    match e {
        Event::StateChanged { context, data, origin, time_fired } => Event::StateChanged {
            context: clone_context(context),
            data: StateChangedData {
                entity_id: data.entity_id.clone(),
                old_state: clone_opt_state(&data.old_state),
                new_state: clone_opt_state(&data.new_state),
            },
            origin: origin.clone(),
            time_fired: time_fired.clone(),
        },
    }
}

/// The textual convention under which an entity state counts as "on".
pub open spec fn spec_state_is_on(s: Seq<char>) -> bool {
    s == "on"@ || s == "1"@ || s == "true"@
}

impl State {
    /// The boolean reading of the entity's textual state.
    pub fn is_on(&self) -> (r: bool)
        ensures
            r == spec_state_is_on(self.state@),
    {
        let on = String::from_str("on");
        let one = String::from_str("1");
        let tru = String::from_str("true");
        self.state == on || self.state == one || self.state == tru
    }
}

/// The textual state of an optional entity state; empty where absent.
pub open spec fn spec_state_text(s: Option<State>) -> Seq<char> {
    match s {
        Some(st) => st.state@,
        None => Seq::empty(),
    }
}

impl Event {
    /// A one-line rendering of the event:
    /// `<entity>: <old state> -> <new state>`, with an empty slot for a
    /// missing state.
    pub fn describe(&self) -> (r: String)
        ensures
            match self {
                Event::StateChanged { data, .. } => r@ == data.entity_id@ + ": "@
                    + spec_state_text(data.old_state) + " -> "@ + spec_state_text(data.new_state),
            },
    {
        match self {
            Event::StateChanged { data, .. } => {
                let mut s = data.entity_id.clone();
                s.append(": ");
                match &data.old_state {
                    Some(st) => s.append(st.state.as_str()),
                    None => {
                        proof {
                            assert(s@ + Seq::<char>::empty() =~= s@);
                        }
                    },
                }
                s.append(" -> ");
                match &data.new_state {
                    Some(st) => s.append(st.state.as_str()),
                    None => {
                        proof {
                            assert(s@ + Seq::<char>::empty() =~= s@);
                        }
                    },
                }
                s
            },
        }
    }
}

impl Error {
    /// The placeholder error used where a failed call carried none.
    pub fn unspecified() -> (r: Error)
        ensures
            r.code@ == "unspecified"@,
            r.message@ == "no error information was present"@,
    {
        Error {
            code: String::from_str("unspecified"),
            message: String::from_str("no error information was present"),
        }
    }

    /// A one-line rendering of the error, `E<code>: <message>`.
    pub fn to_text(&self) -> (r: String)
        ensures
            r@ == "E"@ + self.code@ + ": "@ + self.message@,
    {
        let mut s = String::from_str("E");
        s.append(self.code.as_str());
        s.append(": ");
        s.append(self.message.as_str());
        assert(s@ == "E"@ + self.code@ + ": "@ + self.message@);
        s
    }
}

impl Default for Error {
    /// Equal to [`Error::unspecified`].
    fn default() -> (r: Error)
        ensures
            r.code@ == "unspecified"@,
            r.message@ == "no error information was present"@,
    {
        Error::unspecified()
    }
}

} // verus!
