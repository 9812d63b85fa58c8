//! The event fan-out: one publisher, any number of subscribers, each with
//! its own read cursor over the stream of published events. Only a bounded
//! window of recent events is retained; a subscriber that falls further
//! behind than the window loses the oldest unread events and its next read
//! says so, instead of ever blocking the publisher.

use vstd::prelude::*;

use crate::messages::{Event, clone_event};

verus! {

/// How many pending events each subscriber may lag behind before it
/// starts losing the oldest ones.
pub const EVENT_CHANNEL_CAPACITY: usize = 128;

/// The publisher side: the retained window of recent events and the count
/// of everything ever published on this channel.
pub struct Broadcaster {
    window: Vec<Event>,
    total: u64,
    capacity: usize,
}

/// One subscriber's private read position: the absolute index of the next
/// event it has not yet seen.
#[derive(Debug, Clone, Copy, PartialEq, Eq, Structural)]
pub struct Subscriber {
    pub cursor: u64,
}

/// What one read attempt yields.
#[derive(Debug, Clone, PartialEq, Eq)]
pub enum Recv {
    /// The subscriber fell behind the retained window: this many oldest
    /// unread events are gone for this subscriber alone.
    Lagged { missed: u64 },
    /// Nothing published beyond the cursor yet.
    Empty,
    /// The next event, in publication order.
    Received(Event),
}

impl Broadcaster {
    pub closed spec fn spec_capacity(&self) -> nat {
        self.capacity as nat
    }

    /// The count of events ever published on this channel.
    pub closed spec fn spec_total(&self) -> nat {
        self.total as nat
    }

    /// The retained events: the most recent `window.len()` published, in
    /// publication order.
    pub closed spec fn spec_window(&self) -> Seq<Event> {
        self.window@
    }

    /// The absolute index of the oldest retained event.
    pub open spec fn spec_start(&self) -> nat {
        (self.spec_total() - self.spec_window().len()) as nat
    }

    /// The window holds exactly the last `capacity` events, or all of
    /// them while fewer were published.
    pub open spec fn wf(&self) -> bool {
        &&& self.spec_capacity() > 0
        &&& self.spec_window().len() == if self.spec_total() < self.spec_capacity() {
            self.spec_total()
        } else {
            self.spec_capacity()
        }
    }

    pub fn new(capacity: usize) -> (r: Broadcaster)
        requires
            capacity > 0,
        ensures
            r.wf(),
            r.spec_total() == 0,
            r.spec_capacity() == capacity,
    {
        Broadcaster { window: Vec::new(), total: 0, capacity }
    }

    /// A fresh subscriber, positioned at the head of the stream: it will
    /// see exactly the events published after this point.
    pub fn subscribe(&self) -> (r: Subscriber)
        ensures
            r.cursor == self.spec_total(),
    {
        Subscriber { cursor: self.total }
    }

    /// Publishes one event to every subscriber. Never waits for any
    /// subscriber: a full window drops its oldest event instead. Once
    /// the publication counter is exhausted the event is dropped whole;
    /// publishing never fails and never blocks.
    pub fn publish(&mut self, e: Event)
        requires
            old(self).wf(),
        ensures
            final(self).wf(),
            final(self).spec_capacity() == old(self).spec_capacity(),
            old(self).spec_total() == u64::MAX ==> *final(self) == *old(self),
            old(self).spec_total() < u64::MAX ==> {
                &&& final(self).spec_total() == old(self).spec_total() + 1
                &&& (old(self).spec_window().len() < old(self).spec_capacity() ==> final(
                    self).spec_window() =~= old(self).spec_window().push(e))
                &&& (old(self).spec_window().len() == old(self).spec_capacity() ==> final(
                    self).spec_window() =~= old(self).spec_window().drop_first().push(e))
            },
    {
        if self.total == u64::MAX {
            return ;
        }
        if self.window.len() == self.capacity {
            let _ = self.window.remove(0);
        }
        self.window.push(e);
        self.total = self.total + 1;
    }

    /// One read attempt by a subscriber. A cursor that fell behind the
    /// retained window is snapped to the window's start and the loss is
    /// reported; otherwise the next retained event, or nothing, comes
    /// back. A subscriber that stopped reading while more events than the
    /// window holds were published is always told about the loss rather
    /// than silently skipping events.
    pub fn recv(&self, sub: &mut Subscriber) -> (r: Recv)
        requires
            self.wf(),
            old(sub).cursor <= self.spec_total(),
        ensures
            final(sub).cursor <= self.spec_total(),
            old(sub).cursor < self.spec_start() ==> r == (Recv::Lagged {
                missed: (self.spec_start() - old(sub).cursor) as u64,
            }) && final(sub).cursor == self.spec_start(),
            old(sub).cursor >= self.spec_start() && old(sub).cursor == self.spec_total() ==> r
                is Empty && *final(sub) == *old(sub),
            old(sub).cursor >= self.spec_start() && old(sub).cursor < self.spec_total() ==> r
                == Recv::Received(
                self.spec_window()[old(sub).cursor - self.spec_start()],
            ) && final(sub).cursor == old(sub).cursor + 1,
            old(sub).cursor + self.spec_capacity() < self.spec_total() ==> r is Lagged,
    {
        let start = self.total - self.window.len() as u64;
        if sub.cursor < start {
            let missed = start - sub.cursor;
            sub.cursor = start;
            Recv::Lagged { missed }
        } else if sub.cursor == self.total {
            Recv::Empty
        } else {
            let idx = (sub.cursor - start) as usize;
            let e = clone_event(&self.window[idx]);
            sub.cursor = sub.cursor + 1;
            Recv::Received(e)
        }
    }
}

} // verus!
