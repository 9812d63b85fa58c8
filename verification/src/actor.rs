//! The connection actor's state machine. One actor instance owns one
//! connection attempt: it runs the authentication handshake, assigns each
//! dispatched command the next unused id, correlates replies to pending
//! calls, forwards notifications, and on teardown fails every call still
//! outstanding. The surrounding runtime feeds it frames, commands and
//! timer ticks, and performs the actions it returns.

use vstd::prelude::*;

use crate::correlation::CorrelationTable;
use crate::messages::{Error, Event, Message};

verus! {

/// The first correlation id of every fresh connection.
pub const FIRST_ID: u64 = 1;

/// Authentication progress of the connection.
#[derive(Debug, Clone, Copy, PartialEq, Eq, Structural)]
pub enum Phase {
    Unauthenticated,
    AwaitingAuthOk,
    Ready,
}

/// How a call a caller issued turned out.
#[derive(Debug, Clone, PartialEq, Eq)]
pub enum CallOutcome {
    /// The hub answered with success; the payload is raw JSON text.
    Success { payload: String },
    /// The hub answered with failure and this error.
    ServiceError { error: Error },
    /// The connection was torn down before any answer arrived.
    ConnectionClosed,
}

/// Why the actor's run must end.
#[derive(Debug, Clone, PartialEq, Eq)]
pub enum FatalReason {
    /// The hub rejected the access token.
    AuthFailed { message: String },
    /// A subscription or the initial snapshot fetch failed.
    InitFailed { error: Option<Error> },
}

/// A non-fatal anomaly, to be logged and otherwise ignored.
#[derive(Debug, Clone, PartialEq, Eq)]
pub enum Anomaly {
    /// A result arrived for an id no pending call carries.
    UnknownResultId { id: u64 },
    /// A pong arrived that matches neither a pending call nor the
    /// outstanding keepalive ping.
    UnexpectedPong { id: u64 },
    /// A frame kind the hub is not expected to send.
    UnexpectedKind,
}

/// What the runtime must do after the actor handled one input.
#[derive(Debug, Clone, PartialEq, Eq)]
pub enum Action {
    /// Write this frame to the transport.
    SendFrame(Message),
    /// Fulfil the reply slot behind this token with this outcome.
    Resolve { token: u64, outcome: CallOutcome },
    /// Hand this notification to the event fan-out and the entity cache.
    Publish(Event),
    /// The initial snapshot arrived: decode this raw JSON text and only
    /// then publish the status as connected.
    LoadSnapshot { payload: String },
    /// The outstanding keepalive ping was answered; record the latency.
    LatencyPong { id: u64 },
    /// End this connection's run.
    Fatal(FatalReason),
    /// Log the anomaly; the connection continues.
    Warn(Anomaly),
}

/// How the actor disposed of one command from the queue.
#[derive(Debug, Clone, PartialEq, Eq)]
pub enum CommandDisposition {
    /// The actor is not yet ready: the command stays queued, nothing is
    /// dispatched before authentication completes.
    Deferred,
    /// The frame kind carries no id (or no id is left): the command is
    /// dropped and its reply slot with it.
    Rejected,
    /// The frame, with its freshly assigned id, to write to the
    /// transport; the reply slot is now pending under that id.
    Dispatched { frame: Message, id: u64 },
}

/// The subscription and snapshot frames issued on reaching `Ready`: one
/// subscribe call per configured event type, then one snapshot fetch,
/// with consecutive ids starting at `base`.
pub open spec fn spec_init_actions(event_types: Seq<Option<String>>, base: u64) -> Seq<Action> {
    Seq::new(
        event_types.len() + 1,
        |i: int|
            if i < event_types.len() {
                Action::SendFrame(
                    Message::SubscribeEvents {
                        id: (base + i) as u64,
                        event_type: event_types[i],
                    },
                )
            } else {
                Action::SendFrame(Message::GetStates { id: (base + event_types.len()) as u64 })
            },
    )
}

/// The ids `spec_init_actions` consumes.
pub open spec fn spec_id_run(base: u64, n: nat) -> Seq<u64> {
    Seq::new(n, |i: int| (base + i) as u64)
}

/// The actions teardown owes: one connection-closed resolution per
/// pending call.
pub open spec fn spec_teardown_actions(entries: Seq<(u64, u64)>) -> Seq<Action> {
    entries.map_values(
        |e: (u64, u64)| Action::Resolve { token: e.1, outcome: CallOutcome::ConnectionClosed },
    )
}

/// The state of one connection attempt.
pub struct Actor {
    /// The long-lived token sent when the hub asks for authentication.
    pub access_token: String,
    /// The configured event subscription: one subscribe call per entry;
    /// an entry of `None` subscribes to every event type.
    pub event_types: Vec<Option<String>>,
    /// Authentication progress.
    pub phase: Phase,
    /// The next unused correlation id.
    pub next_id: u64,
    /// The pending calls of external callers: id to reply-slot token.
    pub table: CorrelationTable,
    /// The pending internal subscription calls (tokens unused, zero).
    pub sub_pending: CorrelationTable,
    /// The id of the initial snapshot fetch, while it is pending.
    pub getstates_id: Option<u64>,
    /// Whether the initial snapshot arrived.
    pub init_done: bool,
    /// The id of the keepalive ping awaiting its pong, if any.
    pub last_ping_id: Option<u64>,
    /// Every id assigned within this connection's lifetime, in order.
    pub assigned: Ghost<Seq<u64>>,
}

impl Actor {
    /// The actor's invariant: ids are handed out from a counter, so every
    /// id ever assigned is below `next_id`, the assignment order is
    /// strictly increasing, and no id is pending in two places at once —
    /// a reply for a pending caller id can only resolve that caller's
    /// call. Before `Ready` nothing has been dispatched.
    pub open spec fn wf(&self) -> bool {
        &&& self.table.wf()
        &&& self.table.ids_below(self.next_id)
        &&& self.sub_pending.wf()
        &&& self.sub_pending.ids_below(self.next_id)
        &&& (self.getstates_id matches Some(g) ==> g < self.next_id)
        &&& forall|i: int| 0 <= i < self.assigned@.len() ==> self.assigned@[i] < self.next_id
        &&& forall|i: int, j: int|
            0 <= i < j < self.assigned@.len() ==> self.assigned@[i] < self.assigned@[j]
        &&& (forall|id: u64|
            #[trigger] self.table.spec_has_id(id) ==> !self.sub_pending.spec_has_id(id))
        &&& (self.getstates_id matches Some(g) ==> !self.table.spec_has_id(g)
            && !self.sub_pending.spec_has_id(g))
        &&& (self.phase != Phase::Ready ==> self.table@.len() == 0 && self.sub_pending@.len() == 0
            && self.getstates_id is None && !self.init_done && self.last_ping_id is None)
    }

    /// A fresh actor for a fresh connection: unauthenticated, nothing
    /// pending, and the id counter back at its initial value.
    pub fn new(access_token: String, event_types: Vec<Option<String>>) -> (r: Actor)
        ensures
            r.wf(),
            r.access_token == access_token,
            r.event_types == event_types,
            r.phase == Phase::Unauthenticated,
            r.next_id == FIRST_ID,
            r.table@ =~= Seq::<(u64, u64)>::empty(),
            r.sub_pending@ =~= Seq::<(u64, u64)>::empty(),
            r.getstates_id is None,
            !r.init_done,
            r.last_ping_id is None,
            r.assigned@ =~= Seq::<u64>::empty(),
    {
        Actor {
            access_token,
            event_types,
            phase: Phase::Unauthenticated,
            next_id: FIRST_ID,
            table: CorrelationTable::new(),
            sub_pending: CorrelationTable::new(),
            getstates_id: None,
            init_done: false,
            last_ping_id: None,
            assigned: Ghost(Seq::empty()),
        }
    }

    /// Whether the actor accepts commands from the queue yet. The runtime
    /// must not dequeue while this is false: a command enqueued earlier
    /// stays queued, which is the backpressure the bounded queue provides.
    pub fn ready(&self) -> (r: bool)
        ensures
            r == (self.phase == Phase::Ready),
    {
        matches!(self.phase, Phase::Ready)
    }

    /// Disposes of one command dequeued from the command queue. Before
    /// the actor is `Ready` the command is deferred untouched: nothing is
    /// ever dispatched to the hub before authentication succeeded. While
    /// `Ready`, an id-bearing command gets the next unused id, its reply
    /// slot becomes pending under that id, and the stamped frame goes to
    /// the transport; a command without an id slot is dropped.
    pub fn handle_command(&mut self, msg: Message, token: u64) -> (r: CommandDisposition)
        requires
            old(self).wf(),
        ensures
            final(self).wf(),
            final(self).phase == old(self).phase,
            final(self).access_token == old(self).access_token,
            final(self).event_types == old(self).event_types,
            final(self).sub_pending@ == old(self).sub_pending@,
            final(self).getstates_id == old(self).getstates_id,
            final(self).init_done == old(self).init_done,
            final(self).last_ping_id == old(self).last_ping_id,
            old(self).phase != Phase::Ready ==> r is Deferred && *final(self) == *old(self),
            old(self).phase == Phase::Ready && !msg.spec_has_settable_id() ==> r is Rejected
                && *final(self) == *old(self),
            old(self).phase == Phase::Ready && msg.spec_has_settable_id() && old(self).next_id
                == u64::MAX ==> r is Rejected && *final(self) == *old(self),
            old(self).phase == Phase::Ready && msg.spec_has_settable_id() && old(self).next_id
                < u64::MAX ==> {
                &&& r == (CommandDisposition::Dispatched {
                    frame: msg.spec_with_id(old(self).next_id),
                    id: old(self).next_id,
                })
                &&& final(self).next_id == old(self).next_id + 1
                &&& final(self).table@ =~= old(self).table@.push((old(self).next_id, token))
                &&& final(self).assigned@ =~= old(self).assigned@.push(old(self).next_id)
            },
    {
        if !self.ready() {
            return CommandDisposition::Deferred;
        }
        if self.next_id == u64::MAX {
            return CommandDisposition::Rejected;
        }
        let mut frame = msg;
        if !frame.inject_id(self.next_id) {
            return CommandDisposition::Rejected;
        }
        let id = self.next_id;
        proof {
            assert(!self.table.spec_has_id(id));
        }
        self.table.insert(id, token);
        self.next_id = id + 1;
        self.assigned = Ghost(self.assigned@.push(id));
        CommandDisposition::Dispatched { frame, id }
    }

    /// The keepalive tick: while `Ready` and with no ping outstanding,
    /// assigns the next id to a ping frame and remembers it; otherwise
    /// does nothing.
    pub fn handle_ping_tick(&mut self) -> (r: Option<Message>)
        requires
            old(self).wf(),
        ensures
            final(self).wf(),
            final(self).phase == old(self).phase,
            final(self).access_token == old(self).access_token,
            final(self).event_types == old(self).event_types,
            final(self).table@ == old(self).table@,
            final(self).sub_pending@ == old(self).sub_pending@,
            final(self).getstates_id == old(self).getstates_id,
            final(self).init_done == old(self).init_done,
            old(self).phase != Phase::Ready || old(self).last_ping_id is Some || old(self).next_id == u64::MAX ==> r is None && *final(self) == *old(self),
            old(self).phase == Phase::Ready && old(self).last_ping_id is None && old(self).next_id
                < u64::MAX ==> {
                &&& r == Some(Message::Ping { id: old(self).next_id })
                &&& final(self).last_ping_id == Some(old(self).next_id)
                &&& final(self).next_id == old(self).next_id + 1
                &&& final(self).assigned@ =~= old(self).assigned@.push(old(self).next_id)
            },
    {
        if !self.ready() {
            return None;
        }
        if self.last_ping_id.is_some() {
            return None;
        }
        if self.next_id == u64::MAX {
            return None;
        }
        let id = self.next_id;
        self.last_ping_id = Some(id);
        self.next_id = id + 1;
        self.assigned = Ghost(self.assigned@.push(id));
        Some(Message::Ping { id })
    }

    /// Handles one decoded frame from the hub.
    ///
    /// The authentication handshake: a request for authentication is
    /// answered with the stored token; acceptance moves the actor to
    /// `Ready` and immediately issues the configured subscriptions and
    /// the initial snapshot fetch; rejection is fatal. While connected, a
    /// result or pong for a pending call resolves exactly that call; one
    /// for an unknown id is logged and discarded without harm; an event
    /// is handed to the fan-out. The snapshot result completes
    /// initialization, and only it may make the published status
    /// connected.
    pub fn handle_frame(&mut self, msg: Message) -> (r: Vec<Action>)
        requires
            old(self).wf(),
            msg is AuthOk && old(self).phase != Phase::Ready ==> old(self).next_id + old(self).event_types@.len() + 1 <= u64::MAX,
        ensures
            final(self).wf(),
            final(self).access_token == old(self).access_token,
            final(self).event_types == old(self).event_types,
            match msg {
                Message::AuthRequired { ha_version } => {
                    &&& r@ =~= seq![
                        Action::SendFrame(
                            Message::Auth { access_token: old(self).access_token },
                        ),
                    ]
                    &&& final(self).phase == (if old(self).phase == Phase::Unauthenticated {
                        Phase::AwaitingAuthOk
                    } else {
                        old(self).phase
                    })
                    &&& final(self).next_id == old(self).next_id
                    &&& final(self).table@ == old(self).table@
                    &&& final(self).sub_pending@ == old(self).sub_pending@
                    &&& final(self).getstates_id == old(self).getstates_id
                    &&& final(self).init_done == old(self).init_done
                    &&& final(self).last_ping_id == old(self).last_ping_id
                    &&& final(self).assigned@ == old(self).assigned@
                },
                Message::AuthOk { ha_version } => {
                    if old(self).phase != Phase::Ready {
                        &&& r@ =~= spec_init_actions(old(self).event_types@, old(self).next_id)
                        &&& final(self).phase == Phase::Ready
                        &&& final(self).sub_pending@ =~= Seq::new(
                            old(self).event_types@.len(),
                            |i: int| ((old(self).next_id + i) as u64, 0u64),
                        )
                        &&& final(self).getstates_id == Some(
                            (old(self).next_id + old(self).event_types@.len()) as u64,
                        )
                        &&& final(self).next_id == old(self).next_id + old(self).event_types@.len() + 1
                        &&& final(self).init_done == old(self).init_done
                        &&& final(self).last_ping_id == old(self).last_ping_id
                        &&& final(self).table@ == old(self).table@
                        &&& final(self).assigned@ =~= old(self).assigned@ + spec_id_run(
                            old(self).next_id,
                            old(self).event_types@.len() + 1,
                        )
                    } else {
                        r@ =~= Seq::<Action>::empty() && *final(self) == *old(self)
                    }
                },
                Message::AuthInvalid { message } => {
                    &&& r@ =~= seq![
                        Action::Fatal(FatalReason::AuthFailed { message: message }),
                    ]
                    &&& *final(self) == *old(self)
                },
                Message::Result { id, success, result, error } => {
                    if old(self).getstates_id == Some(id) && !old(self).init_done {
                        if success {
                            &&& r@ =~= seq![Action::LoadSnapshot { payload: result }]
                            &&& final(self).init_done
                            &&& final(self).getstates_id is None
                            &&& final(self).phase == old(self).phase
                            &&& final(self).next_id == old(self).next_id
                            &&& final(self).table@ == old(self).table@
                            &&& final(self).sub_pending@ == old(self).sub_pending@
                            &&& final(self).last_ping_id == old(self).last_ping_id
                            &&& final(self).assigned@ == old(self).assigned@
                        } else {
                            &&& r@ =~= seq![
                                Action::Fatal(FatalReason::InitFailed { error: error }),
                            ]
                            &&& *final(self) == *old(self)
                        }
                    } else if old(self).sub_pending.spec_has_id(id) {
                        &&& !final(self).sub_pending.spec_has_id(id)
                        &&& final(self).sub_pending@.len() == old(self).sub_pending@.len() - 1
                        &&& forall|o: u64|
                            o != id ==> final(self).sub_pending.spec_has_id(o) == old(self).sub_pending.spec_has_id(o)
                        &&& final(self).phase == old(self).phase
                        &&& final(self).next_id == old(self).next_id
                        &&& final(self).table@ == old(self).table@
                        &&& final(self).getstates_id == old(self).getstates_id
                        &&& final(self).init_done == old(self).init_done
                        &&& final(self).last_ping_id == old(self).last_ping_id
                        &&& final(self).assigned@ == old(self).assigned@
                        &&& if success {
                            r@ =~= Seq::<Action>::empty()
                        } else {
                            r@ =~= seq![
                                Action::Fatal(FatalReason::InitFailed { error: error }),
                            ]
                        }
                    } else if old(self).table.spec_has_id(id) {
                        &&& !final(self).table.spec_has_id(id)
                        &&& final(self).table@.len() == old(self).table@.len() - 1
                        &&& forall|o: u64|
                            o != id ==> final(self).table.spec_has_id(o) == old(self).table.spec_has_id(o)
                        &&& forall|o: u64|
                            o != id && old(self).table.spec_has_id(o) ==> final(self).table.spec_token_for(o) == old(self).table.spec_token_for(o)
                        &&& final(self).phase == old(self).phase
                        &&& final(self).next_id == old(self).next_id
                        &&& final(self).sub_pending@ == old(self).sub_pending@
                        &&& final(self).getstates_id == old(self).getstates_id
                        &&& final(self).init_done == old(self).init_done
                        &&& final(self).last_ping_id == old(self).last_ping_id
                        &&& final(self).assigned@ == old(self).assigned@
                        &&& if success {
                            r@ =~= seq![
                                Action::Resolve {
                                    token: old(self).table.spec_token_for(id),
                                    outcome: CallOutcome::Success { payload: result },
                                },
                            ]
                        } else if error is Some {
                            error matches Some(e) && r@ =~= seq![
                                Action::Resolve {
                                    token: old(self).table.spec_token_for(id),
                                    outcome: CallOutcome::ServiceError { error: e },
                                },
                            ]
                        } else {
                            &&& r@.len() == 1
                            &&& (r@[0] matches Action::Resolve { token, outcome } && token == old(self).table.spec_token_for(id) && (
                            outcome matches CallOutcome::ServiceError { error: e } && e.code@
                                == "unspecified"@ && e.message@
                                == "no error information was present"@))
                        }
                    } else {
                        &&& r@ =~= seq![Action::Warn(Anomaly::UnknownResultId { id })]
                        &&& final(self).phase == old(self).phase
                        &&& final(self).next_id == old(self).next_id
                        &&& final(self).table@ == old(self).table@
                        &&& final(self).sub_pending@ == old(self).sub_pending@
                        &&& final(self).getstates_id == old(self).getstates_id
                        &&& final(self).init_done == old(self).init_done
                        &&& final(self).last_ping_id == old(self).last_ping_id
                        &&& final(self).assigned@ == old(self).assigned@
                    }
                },
                Message::Pong { id } => {
                    if old(self).table.spec_has_id(id) {
                        &&& !final(self).table.spec_has_id(id)
                        &&& final(self).table@.len() == old(self).table@.len() - 1
                        &&& forall|o: u64|
                            o != id ==> final(self).table.spec_has_id(o) == old(self).table.spec_has_id(o)
                        &&& forall|o: u64|
                            o != id && old(self).table.spec_has_id(o) ==> final(self).table.spec_token_for(o) == old(self).table.spec_token_for(o)
                        &&& final(self).phase == old(self).phase
                        &&& final(self).next_id == old(self).next_id
                        &&& final(self).sub_pending@ == old(self).sub_pending@
                        &&& final(self).getstates_id == old(self).getstates_id
                        &&& final(self).init_done == old(self).init_done
                        &&& final(self).last_ping_id == old(self).last_ping_id
                        &&& final(self).assigned@ == old(self).assigned@
                        &&& r@.len() == 1
                        &&& (r@[0] matches Action::Resolve { token, outcome } && token == old(self).table.spec_token_for(id) && (outcome matches CallOutcome::Success {
                            payload,
                        } && payload@ == "null"@))
                    } else if old(self).last_ping_id == Some(id) {
                        &&& r@ =~= seq![Action::LatencyPong { id }]
                        &&& final(self).last_ping_id is None
                        &&& final(self).phase == old(self).phase
                        &&& final(self).next_id == old(self).next_id
                        &&& final(self).table@ == old(self).table@
                        &&& final(self).sub_pending@ == old(self).sub_pending@
                        &&& final(self).getstates_id == old(self).getstates_id
                        &&& final(self).init_done == old(self).init_done
                        &&& final(self).assigned@ == old(self).assigned@
                    } else {
                        &&& r@ =~= seq![Action::Warn(Anomaly::UnexpectedPong { id })]
                        &&& final(self).phase == old(self).phase
                        &&& final(self).next_id == old(self).next_id
                        &&& final(self).table@ == old(self).table@
                        &&& final(self).sub_pending@ == old(self).sub_pending@
                        &&& final(self).getstates_id == old(self).getstates_id
                        &&& final(self).init_done == old(self).init_done
                        &&& final(self).last_ping_id == old(self).last_ping_id
                        &&& final(self).assigned@ == old(self).assigned@
                    }
                },
                Message::Event { id, event } => {
                    &&& r@ =~= seq![Action::Publish(event)]
                    &&& *final(self) == *old(self)
                },
                _ => {
                    &&& r@ =~= seq![Action::Warn(Anomaly::UnexpectedKind)]
                    &&& *final(self) == *old(self)
                },
            },
    {
        let mut actions: Vec<Action> = Vec::new();
        match msg {
            Message::AuthRequired { ha_version: _ } => {
                actions.push(
                    Action::SendFrame(Message::Auth { access_token: self.access_token.clone() }),
                );
                if matches!(self.phase, Phase::Unauthenticated) {
                    self.phase = Phase::AwaitingAuthOk;
                }
            },
            Message::AuthOk { ha_version: _ } => {
                if !self.ready() {
                    self.phase = Phase::Ready;
                    let n = self.event_types.len();
                    let ghost base = self.next_id;
                    let mut i: usize = 0;
                    while i < n
                        invariant
                            n == self.event_types@.len(),
                            i <= n,
                            base + n + 1 <= u64::MAX,
                            self.next_id == base + i,
                            self.phase == Phase::Ready,
                            self.access_token == old(self).access_token,
                            self.event_types == old(self).event_types,
                            self.table@ == old(self).table@,
                            self.table.wf(),
                            self.table.ids_below(base as u64),
                            self.getstates_id == old(self).getstates_id,
                            self.init_done == old(self).init_done,
                            self.last_ping_id == old(self).last_ping_id,
                            self.sub_pending.wf(),
                            self.sub_pending@ =~= Seq::new(
                                i as nat,
                                |k: int| ((base + k) as u64, 0u64),
                            ),
                            self.assigned@ =~= old(self).assigned@ + spec_id_run(
                                base as u64,
                                i as nat,
                            ),
                            forall|k: int|
                                0 <= k < old(self).assigned@.len() ==> old(self).assigned@[k]
                                    < base,
                            forall|k: int, l: int|
                                0 <= k < l < old(self).assigned@.len() ==> old(self).assigned@[k]
                                    < old(self).assigned@[l],
                            actions@ =~= spec_init_actions(self.event_types@, base as u64).subrange(
                                0,
                                i as int,
                            ),
                        decreases n - i,
                    {
                        let et = crate::messages::clone_opt_string(&self.event_types[i]);
                        let id = self.next_id;
                        actions.push(
                            Action::SendFrame(Message::SubscribeEvents { id, event_type: et }),
                        );
                        proof {
                            assert(!self.sub_pending.spec_has_id(id)) by {
                                if self.sub_pending.spec_has_id(id) {
                                    let k = choose|k: int|
                                        0 <= k < self.sub_pending@.len() && self.sub_pending@[k].0
                                            == id;
                                    assert(self.sub_pending@[k].0 < id);
                                }
                            }
                        }
                        self.sub_pending.insert(id, 0);
                        self.assigned = Ghost(self.assigned@.push(id));
                        self.next_id = id + 1;
                        proof {
                            assert(self.sub_pending@ =~= Seq::new(
                                (i + 1) as nat,
                                |k: int| ((base + k) as u64, 0u64),
                            ));
                            assert(self.assigned@ =~= old(self).assigned@ + spec_id_run(
                                base as u64,
                                (i + 1) as nat,
                            ));
                            assert(actions@ =~= spec_init_actions(
                                self.event_types@,
                                base as u64,
                            ).subrange(0, i + 1 as int));
                        }
                        i += 1;
                    }
                    let gid = self.next_id;
                    actions.push(Action::SendFrame(Message::GetStates { id: gid }));
                    self.getstates_id = Some(gid);
                    self.assigned = Ghost(self.assigned@.push(gid));
                    self.next_id = gid + 1;
                    proof {
                        assert(actions@ =~= spec_init_actions(self.event_types@, base as u64));
                        assert(self.assigned@ =~= old(self).assigned@ + spec_id_run(
                            base as u64,
                            (n + 1) as nat,
                        ));
                        assert(self.table.ids_below(self.next_id));
                        assert(self.sub_pending.ids_below(self.next_id));
                    }
                }
            },
            Message::AuthInvalid { message } => {
                actions.push(Action::Fatal(FatalReason::AuthFailed { message }));
            },
            Message::Result { id, success, result, error } => {
                let is_snapshot = match self.getstates_id {
                    Some(g) => g == id && !self.init_done,
                    None => false,
                };
                if is_snapshot {
                    if success {
                        actions.push(Action::LoadSnapshot { payload: result });
                        self.init_done = true;
                        self.getstates_id = None;
                    } else {
                        actions.push(Action::Fatal(FatalReason::InitFailed { error }));
                    }
                } else {
                    match self.sub_pending.resolve(id) {
                        Some(_) => {
                            if !success {
                                actions.push(Action::Fatal(FatalReason::InitFailed { error }));
                            }
                        },
                        None => {
                            match self.table.resolve(id) {
                                Some(token) => {
                                    let outcome = if success {
                                        CallOutcome::Success { payload: result }
                                    } else {
                                        match error {
                                            Some(e) => CallOutcome::ServiceError { error: e },
                                            None => CallOutcome::ServiceError {
                                                error: Error::unspecified(),
                                            },
                                        }
                                    };
                                    actions.push(Action::Resolve { token, outcome });
                                },
                                None => {
                                    actions.push(Action::Warn(Anomaly::UnknownResultId { id }));
                                },
                            }
                        },
                    }
                }
            },
            Message::Pong { id } => {
                match self.table.resolve(id) {
                    Some(token) => {
                        actions.push(
                            Action::Resolve {
                                token,
                                outcome: CallOutcome::Success {
                                    payload: String::from_str("null"),
                                },
                            },
                        );
                    },
                    None => {
                        let is_keepalive = match self.last_ping_id {
                            Some(p) => p == id,
                            None => false,
                        };
                        if is_keepalive {
                            self.last_ping_id = None;
                            actions.push(Action::LatencyPong { id });
                        } else {
                            actions.push(Action::Warn(Anomaly::UnexpectedPong { id }));
                        }
                    },
                }
            },
            Message::Event { id: _, event } => {
                actions.push(Action::Publish(event));
            },
            Message::Auth { .. }
            | Message::CallService { .. }
            | Message::SubscribeEvents { .. }
            | Message::SubscribeTrigger { .. }
            | Message::Ping { .. }
            | Message::GetStates { .. } => {
                actions.push(Action::Warn(Anomaly::UnexpectedKind));
            },
        }
        actions
    }

    /// Ends this connection's run: every still-pending call is resolved
    /// as connection-closed, so no caller is ever left waiting on a dead
    /// connection.
    pub fn teardown(&mut self) -> (r: Vec<Action>)
        requires
            old(self).wf(),
        ensures
            final(self).wf(),
            r@ =~= spec_teardown_actions(old(self).table@),
            final(self).table@ =~= Seq::<(u64, u64)>::empty(),
            final(self).sub_pending@ =~= Seq::<(u64, u64)>::empty(),
            final(self).phase == old(self).phase,
            final(self).next_id == old(self).next_id,
            final(self).assigned@ == old(self).assigned@,
    {
        let tokens = self.table.drain();
        let _ = self.sub_pending.drain();
        let mut actions: Vec<Action> = Vec::new();
        let n = tokens.len();
        let mut i: usize = 0;
        while i < n
            invariant
                n == tokens.len(),
                i <= n,
                tokens@ =~= old(self).table@.map_values(|e: (u64, u64)| e.1),
                actions@ =~= spec_teardown_actions(old(self).table@.subrange(0, i as int)),
            decreases n - i,
        {
            actions.push(Action::Resolve { token: tokens[i], outcome: CallOutcome::ConnectionClosed });
            proof {
                assert(old(self).table@.subrange(0, i + 1 as int) =~= old(self).table@.subrange(
                    0,
                    i as int,
                ).push(old(self).table@[i as int]));
                assert(spec_teardown_actions(old(self).table@.subrange(0, i + 1 as int))
                    =~= spec_teardown_actions(old(self).table@.subrange(0, i as int)).push(
                    Action::Resolve {
                        token: old(self).table@[i as int].1,
                        outcome: CallOutcome::ConnectionClosed,
                    },
                ));
            }
            i += 1;
        }
        proof {
            assert(old(self).table@.subrange(0, n as int) =~= old(self).table@);
        }
        actions
    }
}

/// Every id assigned within one connection's lifetime is strictly
/// greater than each id assigned before it, so no id is ever assigned
/// twice; a fresh connection's actor starts over at `FIRST_ID`.
pub proof fn lemma_assigned_ids_strictly_increasing(a: Actor)
    requires
        a.wf(),
    ensures
        forall|i: int, j: int|
            0 <= i < j < a.assigned@.len() ==> a.assigned@[i] < a.assigned@[j],
        forall|i: int, j: int|
            0 <= i < a.assigned@.len() && 0 <= j < a.assigned@.len() && i != j ==> a.assigned@[i]
                != a.assigned@[j],
{
    assert forall|i: int, j: int|
        0 <= i < a.assigned@.len() && 0 <= j < a.assigned@.len() && i != j implies a.assigned@[i]
        != a.assigned@[j] by {
        if i < j {
            assert(a.assigned@[i] < a.assigned@[j]);
        } else {
            assert(a.assigned@[j] < a.assigned@[i]);
        }
    }
}

/// Teardown owes exactly one connection-closed resolution to each call
/// that was still pending: the caller behind every outstanding token
/// observes a failure rather than waiting forever.
pub proof fn lemma_teardown_fails_every_pending(entries: Seq<(u64, u64)>)
    ensures
        spec_teardown_actions(entries).len() == entries.len(),
        forall|i: int|
            0 <= i < entries.len() ==> spec_teardown_actions(entries)[i] == (Action::Resolve {
                token: entries[i].1,
                outcome: CallOutcome::ConnectionClosed,
            }),
{
}

} // verus!
