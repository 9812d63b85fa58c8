//! The entity cache and the published connection status. The cache holds
//! the last known state per entity id; a state-change notification with a
//! non-null new value upserts that entity, and replaying the same
//! notification is idempotent.

use vstd::prelude::*;

use crate::messages::{Event, State, StateChangedData, clone_state, spec_state_is_on};

verus! {

/// Whether some entry of `s` carries the entity id `k`.
pub open spec fn has_key(s: Seq<State>, k: Seq<char>) -> bool {
    exists|i: int| 0 <= i < s.len() && s[i].entity_id@ == k
}

/// The index of the entry carrying `k`; meaningful under `unique_keys`.
pub open spec fn key_index(s: Seq<State>, k: Seq<char>) -> int {
    choose|i: int| 0 <= i < s.len() && s[i].entity_id@ == k
}

/// The entry carrying `k`; meaningful under `unique_keys` and `has_key`.
pub open spec fn get_state(s: Seq<State>, k: Seq<char>) -> State {
    s[key_index(s, k)]
}

/// No entity id occurs twice.
pub open spec fn unique_keys(s: Seq<State>) -> bool {
    forall|i: int, j: int|
        0 <= i < s.len() && 0 <= j < s.len() && i != j ==> s[i].entity_id@ != s[j].entity_id@
}

/// The sequence after recording `x` as the latest state of its entity:
/// the entry under the same id is replaced, or `x` is appended.
pub open spec fn spec_upsert(s: Seq<State>, x: State) -> Seq<State> {
    if has_key(s, x.entity_id@) {
        s.update(key_index(s, x.entity_id@), x)
    } else {
        s.push(x)
    }
}

/// An upsert keeps entity ids unique, records `x` under its id, and
/// leaves every other entity's entry unchanged.
pub proof fn lemma_upsert_facts(s: Seq<State>, x: State)
    requires
        unique_keys(s),
    ensures
        unique_keys(spec_upsert(s, x)),
        has_key(spec_upsert(s, x), x.entity_id@),
        get_state(spec_upsert(s, x), x.entity_id@) == x,
        forall|k: Seq<char>|
            k != x.entity_id@ ==> has_key(spec_upsert(s, x), k) == has_key(s, k),
        forall|k: Seq<char>|
            k != x.entity_id@ && has_key(s, k) ==> get_state(spec_upsert(s, x), k) == get_state(
                s,
                k,
            ),
{
    let t = spec_upsert(s, x);
    let kx = x.entity_id@;
    if has_key(s, kx) {
        let i = key_index(s, kx);
        assert(0 <= i < s.len() && s[i].entity_id@ == kx);
        assert(t =~= s.update(i, x));
        assert forall|p: int, q: int|
            0 <= p < t.len() && 0 <= q < t.len() && p != q implies t[p].entity_id@
            != t[q].entity_id@ by {
            if p != i && q != i {
                assert(t[p] == s[p] && t[q] == s[q]);
            } else if p == i {
                assert(t[q] == s[q]);
                assert(s[q].entity_id@ != s[i].entity_id@);
            } else {
                assert(t[p] == s[p]);
                assert(s[p].entity_id@ != s[i].entity_id@);
            }
        }
        assert(t[i] == x);
        assert(has_key(t, kx));
        let c = choose|c: int| 0 <= c < t.len() && t[c].entity_id@ == kx;
        assert(c == i) by {
            if c != i {
                assert(t[c] == s[c]);
                assert(s[c].entity_id@ != s[i].entity_id@);
            }
        }
        assert(get_state(t, kx) == x);
        assert forall|k: Seq<char>| k != kx implies has_key(t, k) == has_key(s, k) by {
            if has_key(s, k) {
                let j = choose|j: int| 0 <= j < s.len() && s[j].entity_id@ == k;
                assert(j != i);
                assert(t[j] == s[j]);
                assert(has_key(t, k));
            }
            if has_key(t, k) {
                let j = choose|j: int| 0 <= j < t.len() && t[j].entity_id@ == k;
                assert(j != i);
                assert(s[j] == t[j]);
                assert(has_key(s, k));
            }
        }
        assert forall|k: Seq<char>| k != kx && has_key(s, k) implies get_state(t, k) == get_state(
            s,
            k,
        ) by {
            let j = choose|j: int| 0 <= j < s.len() && s[j].entity_id@ == k;
            let j2 = choose|j2: int| 0 <= j2 < t.len() && t[j2].entity_id@ == k;
            assert(j != i && j2 != i);
            assert(t[j2] == s[j2]);
            assert(s[j].entity_id@ == k && s[j2].entity_id@ == k);
            assert(j == j2);
        }
    } else {
        let n = s.len() as int;
        assert(t =~= s.push(x));
        assert(t[n] == x);
        assert(forall|p: int| 0 <= p < n ==> t[p] == s[p]);
        assert forall|p: int, q: int|
            0 <= p < t.len() && 0 <= q < t.len() && p != q implies t[p].entity_id@
            != t[q].entity_id@ by {
            if p < n && q < n {
                assert(t[p] == s[p] && t[q] == s[q]);
            } else if p == n {
                assert(t[q] == s[q]);
                assert(!has_key(s, kx) ==> s[q].entity_id@ != kx);
            } else {
                assert(t[p] == s[p]);
                assert(!has_key(s, kx) ==> s[p].entity_id@ != kx);
            }
        }
        assert(has_key(t, kx));
        let c = choose|c: int| 0 <= c < t.len() && t[c].entity_id@ == kx;
        assert(c == n) by {
            if c != n {
                assert(t[c] == s[c]);
                assert(has_key(s, kx));
            }
        }
        assert(get_state(t, kx) == x);
        assert forall|k: Seq<char>| k != kx implies has_key(t, k) == has_key(s, k) by {
            if has_key(s, k) {
                let j = choose|j: int| 0 <= j < s.len() && s[j].entity_id@ == k;
                assert(t[j] == s[j]);
                assert(has_key(t, k));
            }
            if has_key(t, k) {
                let j = choose|j: int| 0 <= j < t.len() && t[j].entity_id@ == k;
                assert(j != n);
                assert(s[j] == t[j]);
                assert(has_key(s, k));
            }
        }
        assert forall|k: Seq<char>| k != kx && has_key(s, k) implies get_state(t, k) == get_state(
            s,
            k,
        ) by {
            let j = choose|j: int| 0 <= j < s.len() && s[j].entity_id@ == k;
            let j2 = choose|j2: int| 0 <= j2 < t.len() && t[j2].entity_id@ == k;
            assert(j2 != n);
            assert(t[j2] == s[j2]);
            assert(s[j].entity_id@ == k && s[j2].entity_id@ == k);
            assert(j == j2);
        }
    }
}

/// Recording the same latest state twice converges: the second upsert of
/// `x` leaves the cache exactly as the first left it.
pub proof fn lemma_upsert_idempotent(s: Seq<State>, x: State)
    requires
        unique_keys(s),
    ensures
        spec_upsert(spec_upsert(s, x), x) =~= spec_upsert(s, x),
{
    let t = spec_upsert(s, x);
    let kx = x.entity_id@;
    lemma_upsert_facts(s, x);
    let i = key_index(t, kx);
    assert(0 <= i < t.len() && t[i].entity_id@ == kx);
    assert(t[i] == x) by {
        assert(get_state(t, kx) == x);
    }
    assert(has_key(t, kx));
    assert(spec_upsert(t, x) =~= t.update(i, x));
    assert(t.update(i, x) =~= t);
}

/// The cache a snapshot builds: each state recorded in order, so of two
/// entries under one entity id the later wins.
pub open spec fn spec_load(states: Seq<State>) -> Seq<State>
    decreases states.len(),
{
    if states.len() == 0 {
        Seq::empty()
    } else {
        spec_upsert(spec_load(states.drop_last()), states.last())
    }
}

/// A loaded snapshot holds exactly the snapshot's entity ids, each
/// mapped to the last state the snapshot gave it.
pub proof fn lemma_load_facts(states: Seq<State>)
    ensures
        unique_keys(spec_load(states)),
        forall|j: int|
            0 <= j < states.len() ==> has_key(spec_load(states), states[j].entity_id@),
        forall|k: Seq<char>|
            has_key(spec_load(states), k) ==> exists|j: int|
                0 <= j < states.len() && states[j].entity_id@ == k,
        forall|j: int|
            0 <= j < states.len() && (forall|j2: int|
                j < j2 < states.len() ==> (#[trigger] states[j2]).entity_id@
                    != states[j].entity_id@) ==> get_state(
                spec_load(states),
                (#[trigger] states[j]).entity_id@,
            ) == states[j],
    decreases states.len(),
{
    if states.len() == 0 {
    } else {
        let pre = states.drop_last();
        let x = states.last();
        let t = spec_load(states);
        lemma_load_facts(pre);
        lemma_upsert_facts(spec_load(pre), x);
        assert forall|j: int| 0 <= j < states.len() implies has_key(t, states[j].entity_id@) by {
            if j < states.len() - 1 {
                assert(pre[j] == states[j]);
                assert(has_key(spec_load(pre), states[j].entity_id@));
                if states[j].entity_id@ != x.entity_id@ {
                    assert(has_key(t, states[j].entity_id@));
                }
            }
        }
        assert forall|k: Seq<char>| has_key(t, k) implies exists|j: int|
            0 <= j < states.len() && states[j].entity_id@ == k by {
            if k != x.entity_id@ {
                assert(has_key(spec_load(pre), k));
                let j = choose|j: int| 0 <= j < pre.len() && pre[j].entity_id@ == k;
                assert(states[j].entity_id@ == k);
            } else {
                assert(states[states.len() - 1].entity_id@ == k);
            }
        }
        assert forall|j: int|
            0 <= j < states.len() && (forall|j2: int|
                j < j2 < states.len() ==> (#[trigger] states[j2]).entity_id@
                    != states[j].entity_id@) implies get_state(t, (#[trigger] states[j]).entity_id@)
            == states[j] by {
            if j == states.len() - 1 {
                assert(get_state(t, x.entity_id@) == x);
            } else {
                assert(states[j].entity_id@ != x.entity_id@);
                assert(pre[j] == states[j]);
                assert(forall|j2: int|
                    j < j2 < pre.len() ==> (#[trigger] pre[j2]).entity_id@
                        != pre[j].entity_id@);
                assert(get_state(spec_load(pre), pre[j].entity_id@) == pre[j]);
                assert(has_key(spec_load(pre), states[j].entity_id@));
                assert(get_state(t, states[j].entity_id@) == get_state(
                    spec_load(pre),
                    states[j].entity_id@,
                ));
            }
        }
    }
}

/// The point-in-time map of entity id to last known state.
#[derive(Clone)]
pub struct EntityCache {
    entries: Vec<State>,
}

impl EntityCache {
    /// The cached entries, in insertion order.
    pub closed spec fn view(&self) -> Seq<State> {
        self.entries@
    }

    pub open spec fn wf(&self) -> bool {
        unique_keys(self@)
    }

    pub fn new() -> (r: EntityCache)
        ensures
            r@ =~= Seq::<State>::empty(),
            r.wf(),
    {
        EntityCache { entries: Vec::new() }
    }

    pub fn len(&self) -> (r: usize)
        ensures
            r == self@.len(),
    {
        self.entries.len()
    }

    /// The last known state of the entity, if any.
    pub fn get(&self, entity_id: &str) -> (r: Option<&State>)
        requires
            self.wf(),
        ensures
            r is Some <==> has_key(self@, entity_id@),
            r matches Some(s) ==> *s == get_state(self@, entity_id@),
    {
        let key = String::from_str(entity_id);
        let n = self.entries.len();
        let mut i: usize = 0;
        while i < n
            invariant
                key@ == entity_id@,
                n == self.entries.len(),
                i <= n,
                unique_keys(self@),
                forall|k: int| 0 <= k < i ==> self@[k].entity_id@ != entity_id@,
            decreases n - i,
        {
            if self.entries[i].entity_id == key {
                proof {
                    assert(self@[i as int].entity_id@ == entity_id@);
                    assert(has_key(self@, entity_id@));
                    let c = choose|c: int|
                        0 <= c < self@.len() && self@[c].entity_id@ == entity_id@;
                    assert(c == i) by {
                        if c != i {
                            assert(self@[c].entity_id@ != self@[i as int].entity_id@);
                        }
                    }
                }
                return Some(&self.entries[i]);
            }
            i += 1;
        }
        proof {
            assert(!has_key(self@, entity_id@));
        }
        None
    }

    /// Records `x` as the latest state of its entity.
    pub fn upsert(&mut self, x: State)
        requires
            old(self).wf(),
        ensures
            final(self)@ =~= spec_upsert(old(self)@, x),
            final(self).wf(),
            has_key(final(self)@, x.entity_id@),
            get_state(final(self)@, x.entity_id@) == x,
            forall|k: Seq<char>|
                k != x.entity_id@ ==> has_key(final(self)@, k) == has_key(old(self)@, k),
            forall|k: Seq<char>|
                k != x.entity_id@ && has_key(old(self)@, k) ==> get_state(final(self)@, k)
                    == get_state(old(self)@, k),
    {
        let n = self.entries.len();
        let mut i: usize = 0;
        while i < n
            invariant
                self@ =~= old(self)@,
                n == self.entries.len(),
                i <= n,
                unique_keys(self@),
                forall|k: int| 0 <= k < i ==> self@[k].entity_id@ != x.entity_id@,
            decreases n - i,
        {
            if self.entries[i].entity_id == x.entity_id {
                proof {
                    lemma_upsert_facts(old(self)@, x);
                    assert(self@[i as int].entity_id@ == x.entity_id@);
                    assert(has_key(self@, x.entity_id@));
                    let c = choose|c: int|
                        0 <= c < self@.len() && self@[c].entity_id@ == x.entity_id@;
                    assert(c == i) by {
                        if c != i {
                            assert(self@[c].entity_id@ != self@[i as int].entity_id@);
                        }
                    }
                }
                self.entries[i] = x;
                return ;
            }
            i += 1;
        }
        proof {
            lemma_upsert_facts(old(self)@, x);
            assert(!has_key(self@, x.entity_id@));
        }
        self.entries.push(x);
    }
}

impl EntityCache {
    /// Builds the cache from a full snapshot: exactly the snapshot's
    /// states, recorded in order, so of two entries under one entity id
    /// the later wins.
    pub fn from_states(states: Vec<State>) -> (r: EntityCache)
        ensures
            r@ =~= spec_load(states@),
            r.wf(),
    {
        proof {
            lemma_load_facts(states@);
        }
        let mut cache = EntityCache::new();
        let n = states.len();
        let mut i: usize = 0;
        while i < n
            invariant
                n == states@.len(),
                i <= n,
                cache.wf(),
                cache@ =~= spec_load(states@.take(i as int)),
            decreases n - i,
        {
            let x = clone_state(&states[i]);
            cache.upsert(x);
            proof {
                assert(states@.take(i + 1 as int).drop_last() =~= states@.take(i as int));
                assert(states@.take(i + 1 as int).last() == states@[i as int]);
            }
            i += 1;
        }
        proof {
            assert(states@.take(n as int) =~= states@);
        }
        cache
    }
}

/// The connection status the client publishes: `Connected` carries the
/// entity cache; it holds only strictly between a completed initial
/// snapshot and the owning connection's teardown.
#[derive(Clone)]
pub enum Status {
    Disconnected,
    Connected { entities: EntityCache },
}

/// The cached entries behind a status; none while disconnected.
pub open spec fn spec_entities(st: &Status) -> Seq<State> {
    match st {
        Status::Disconnected => Seq::<State>::empty(),
        Status::Connected { entities } => entities@,
    }
}

/// The state a change notification records: the new state under the
/// notification's own entity id.
pub open spec fn spec_recorded_state(data: StateChangedData, ns: State) -> State {
    State {
        entity_id: data.entity_id,
        attributes: ns.attributes,
        context: ns.context,
        last_changed: ns.last_changed,
        last_updated: ns.last_updated,
        state: ns.state,
    }
}

impl Status {
    pub open spec fn wf(&self) -> bool {
        match self {
            Status::Disconnected => true,
            Status::Connected { entities } => entities.wf(),
        }
    }

    pub open spec fn is_connected(&self) -> bool {
        self is Connected
    }

    /// Whether the status is connected.
    pub fn connected(&self) -> (r: bool)
        ensures
            r == self.is_connected(),
    {
        matches!(self, Status::Connected { .. })
    }

    /// Applies one notification: a state change with a non-null new value
    /// upserts that entity while connected; a null new value, or a
    /// disconnected status, changes nothing.
    pub fn apply_event(&mut self, event: &Event)
        requires
            old(self).wf(),
        ensures
            final(self).wf(),
            match *event {
                Event::StateChanged { data, .. } => {
                    match data.new_state {
                        Some(ns) => {
                            if old(self).is_connected() {
                                &&& final(self).is_connected()
                                &&& spec_entities(final(self)) =~= spec_upsert(
                                    spec_entities(old(self)),
                                    spec_recorded_state(data, ns),
                                )
                            } else {
                                *final(self) == *old(self)
                            }
                        },
                        None => *final(self) == *old(self),
                    }
                },
            },
    {
        match self {
            Status::Disconnected => {},
            Status::Connected { entities } => {
                match event {
                    Event::StateChanged { data, .. } => {
                        match &data.new_state {
                            Some(ns) => {
                                let mut s = clone_state(ns);
                                s.entity_id = data.entity_id.clone();
                                entities.upsert(s);
                            },
                            None => {},
                        }
                    },
                }
            },
        }
    }

    /// Publishes the initial full snapshot: the status becomes connected
    /// with exactly the given states — the fresh snapshot, and nothing
    /// else, whatever was published before. This is the only operation
    /// that makes a status connected, and the connection runtime calls
    /// it only once the snapshot fetch completed.
    pub fn load_snapshot(&mut self, states: Vec<State>)
        ensures
            final(self).wf(),
            final(self).is_connected(),
            spec_entities(final(self)) =~= spec_load(states@),
    {
        *self = Status::Connected { entities: EntityCache::from_states(states) };
    }

    /// The boolean reading of an entity's textual state, where the status
    /// is connected and the entity is cached; `None` otherwise.
    pub fn entity_is_on(&self, entity_id: &str) -> (r: Option<bool>)
        requires
            self.wf(),
        ensures
            match self {
                Status::Disconnected => r is None,
                Status::Connected { entities } => {
                    if has_key(entities@, entity_id@) {
                        r == Some(spec_state_is_on(get_state(entities@, entity_id@).state@))
                    } else {
                        r is None
                    }
                },
            },
    {
        match self {
            Status::Disconnected => None,
            Status::Connected { entities } => {
                match entities.get(entity_id) {
                    Some(s) => Some(s.is_on()),
                    None => None,
                }
            },
        }
    }
}

} // verus!
