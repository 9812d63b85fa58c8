//! The correlation table: maps an outgoing call's numeric id to the opaque
//! token of its one-shot reply slot. One table lives exactly as long as one
//! connection attempt and is drained wholesale at teardown, so every
//! in-flight call observes the connection's end.

use vstd::prelude::*;

verus! {

/// Id-to-reply-slot map of one connection. Tokens are opaque handles the
/// caller of the library uses to find the actual reply slot.
pub struct CorrelationTable {
    entries: Vec<(u64, u64)>,
}

impl CorrelationTable {
    /// The pending entries, in insertion order, as (id, token) pairs.
    pub closed spec fn view(&self) -> Seq<(u64, u64)> {
        self.entries@
    }

    /// No id occurs twice.
    pub open spec fn wf(&self) -> bool {
        forall|i: int, j: int|
            0 <= i < self@.len() && 0 <= j < self@.len() && i != j ==> self@[i].0 != self@[j].0
    }

    /// Whether a call with this id is pending.
    pub open spec fn spec_has_id(&self, id: u64) -> bool {
        exists|i: int| 0 <= i < self@.len() && self@[i].0 == id
    }

    /// The token of the pending call with this id.
    pub open spec fn spec_token_for(&self, id: u64) -> u64 {
        self@[choose|i: int| 0 <= i < self@.len() && self@[i].0 == id].1
    }

    /// An upper bound on every pending id.
    pub open spec fn ids_below(&self, bound: u64) -> bool {
        forall|i: int| 0 <= i < self@.len() ==> (#[trigger] self@[i]).0 < bound
    }

    pub fn new() -> (r: CorrelationTable)
        ensures
            r@ =~= Seq::<(u64, u64)>::empty(),
            r.wf(),
    {
        CorrelationTable { entries: Vec::new() }
    }

    pub fn len(&self) -> (r: usize)
        ensures
            r == self@.len(),
    {
        self.entries.len()
    }

    /// Records a freshly assigned id with its reply-slot token. An id in
    /// use must never be overwritten, so a pending one is refused.
    pub fn insert(&mut self, id: u64, token: u64)
        requires
            old(self).wf(),
            !old(self).spec_has_id(id),
        ensures
            final(self)@ =~= old(self)@.push((id, token)),
            final(self).wf(),
            final(self).spec_has_id(id),
            final(self).spec_token_for(id) == token,
            forall|other: u64|
                other != id ==> final(self).spec_has_id(other) == old(self).spec_has_id(other),
            forall|other: u64|
                other != id && old(self).spec_has_id(other) ==> final(self).spec_token_for(other)
                    == old(self).spec_token_for(other),
    {
        self.entries.push((id, token));
        proof {
            let n = old(self)@.len() as int;
            assert(self@[n] == (id, token));
            assert(forall|k: int| 0 <= k < n ==> self@[k] == old(self)@[k]);
            assert forall|k: int| 0 <= k < n implies self@[k].0 != id by {
                assert(old(self)@[k] == self@[k]);
            }
            assert(self.spec_has_id(id));
            let c = choose|i: int| 0 <= i < self@.len() && self@[i].0 == id;
            assert(c == n);
            assert(self.spec_token_for(id) == token);
            assert forall|other: u64|
                other != id && old(self).spec_has_id(other) implies self.spec_has_id(other)
                && self.spec_token_for(other) == old(self).spec_token_for(other) by {
                let i = choose|i: int| 0 <= i < old(self)@.len() && old(self)@[i].0 == other;
                assert(self@[i].0 == other);
                assert(self.spec_has_id(other));
                let j = choose|j: int| 0 <= j < self@.len() && self@[j].0 == other;
                assert(j < n);
                assert(old(self)@[j].0 == other);
                let k = choose|k: int| 0 <= k < old(self)@.len() && old(self)@[k].0 == other;
                assert(old(self)@[k].0 == other && old(self)@[j].0 == other);
                assert(k == j);
            }
            assert forall|other: u64| other != id && self.spec_has_id(other) implies old(self).spec_has_id(other) by {
                let j = choose|j: int| 0 <= j < self@.len() && self@[j].0 == other;
                assert(j != n);
                assert(old(self)@[j].0 == other);
            }
        }
    }

    /// Removes the pending call with this id and hands back its token, so
    /// the caller can fulfil the reply slot; `None`, and no change, where
    /// no such call is pending. Resolving twice therefore cannot happen:
    /// the second attempt finds nothing pending under the id.
    pub fn resolve(&mut self, id: u64) -> (r: Option<u64>)
        requires
            old(self).wf(),
        ensures
            final(self).wf(),
            !old(self).spec_has_id(id) ==> r is None && final(self)@ =~= old(self)@,
            old(self).spec_has_id(id) ==> r == Some(old(self).spec_token_for(id))
                && final(self)@.len() == old(self)@.len() - 1,
            !final(self).spec_has_id(id),
            forall|other: u64|
                other != id ==> final(self).spec_has_id(other) == old(self).spec_has_id(other),
            forall|other: u64|
                other != id && old(self).spec_has_id(other) ==> final(self).spec_token_for(other)
                    == old(self).spec_token_for(other),
            forall|bound: u64| old(self).ids_below(bound) ==> #[trigger] final(self).ids_below(
                bound),
    {
        let n = self.entries.len();
        let mut i: usize = 0;
        while i < n
            invariant
                self@ =~= old(self)@,
                old(self).wf(),
                n == self.entries.len(),
                i <= n,
                forall|k: int| 0 <= k < i ==> self@[k].0 != id,
            decreases n - i,
        {
            if self.entries[i].0 == id {
                let entry = self.entries.remove(i);
                proof {
                    let s_old = old(self)@;
                    let s_new = self@;
                    assert(s_old[i as int].0 == id);
                    assert(old(self).spec_has_id(id));
                    let c = choose|c: int| 0 <= c < s_old.len() && s_old[c].0 == id;
                    assert(c == i) by {
                        assert(s_old[c].0 == id);
                        assert(s_old[i as int].0 == id);
                        if c != i {
                            assert(s_old[c].0 != s_old[i as int].0);
                            assert(false);
                        }
                    }
                    assert(entry.1 == s_old[i as int].1);
                    assert(entry.1 == old(self).spec_token_for(id));
                    assert(forall|k: int| 0 <= k < i ==> s_new[k] == s_old[k]);
                    assert(forall|k: int|
                        i <= k < s_new.len() ==> s_new[k] == s_old[k + 1]);
                    assert forall|k: int| 0 <= k < s_new.len() implies s_new[k].0 != id by {
                        if k < i {
                            assert(s_new[k] == s_old[k]);
                        } else {
                            assert(s_new[k] == s_old[k + 1]);
                        }
                    }
                    assert(!self.spec_has_id(id));
                    assert(self.wf()) by {
                        assert forall|p: int, q: int|
                            0 <= p < s_new.len() && 0 <= q < s_new.len() && p != q implies
                            s_new[p].0 != s_new[q].0 by {
                            let p0: int = if p < i { p } else { p + 1 };
                            let q0: int = if q < i { q } else { q + 1 };
                            assert(s_new[p] == s_old[p0] && s_new[q] == s_old[q0]);
                        }
                    }
                    assert forall|other: u64|
                        other != id && old(self).spec_has_id(other) implies self.spec_has_id(other)
                        && self.spec_token_for(other) == old(self).spec_token_for(other) by {
                        let k = choose|k: int| 0 <= k < s_old.len() && s_old[k].0 == other;
                        let w: int = if k < i { k } else { k - 1 };
                        assert(k != i);
                        assert(s_new[w] == s_old[k]);
                        assert(self.spec_has_id(other));
                        let j = choose|j: int| 0 <= j < s_new.len() && s_new[j].0 == other;
                        let j0: int = if j < i { j } else { j + 1 };
                        assert(s_new[j] == s_old[j0]);
                        assert(s_old[j0].0 == other && s_old[k].0 == other);
                        assert(j0 == k);
                    }
                    assert forall|other: u64| other != id && self.spec_has_id(other) implies old(self).spec_has_id(other) by {
                        let j = choose|j: int| 0 <= j < s_new.len() && s_new[j].0 == other;
                        let j0: int = if j < i { j } else { j + 1 };
                        assert(s_old[j0] == s_new[j]);
                    }
                    assert forall|bound: u64| old(self).ids_below(bound) implies self.ids_below(
                        bound,
                    ) by {
                        assert forall|k: int| 0 <= k < s_new.len() implies (
                        #[trigger] s_new[k]).0 < bound by {
                            if k < i {
                                assert(s_new[k] == s_old[k]);
                            } else {
                                assert(s_new[k] == s_old[k + 1]);
                            }
                        }
                    }
                }
                return Some(entry.1);
            }
            i += 1;
        }
        proof {
            assert(forall|k: int| 0 <= k < self@.len() ==> self@[k].0 != id);
            assert(!self.spec_has_id(id));
            assert(!old(self).spec_has_id(id));
        }
        None
    }

    /// Empties the table at connection teardown and hands back every
    /// pending token, each of which must then observe a connection-closed
    /// failure.
    pub fn drain(&mut self) -> (r: Vec<u64>)
        ensures
            final(self)@ =~= Seq::<(u64, u64)>::empty(),
            final(self).wf(),
            r@ =~= old(self)@.map_values(|e: (u64, u64)| e.1),
    {
        let mut tokens: Vec<u64> = Vec::new();
        let n = self.entries.len();
        let mut i: usize = 0;
        while i < n
            invariant
                self@ =~= old(self)@,
                n == self.entries.len(),
                i <= n,
                tokens@ =~= self.entries@.subrange(0, i as int).map_values(|e: (u64, u64)| e.1),
            decreases n - i,
        {
            tokens.push(self.entries[i].1);
            assert(self.entries@.subrange(0, i + 1 as int) =~= self.entries@.subrange(
                0,
                i as int,
            ).push(self.entries@[i as int]));
            i += 1;
        }
        assert(self.entries@.subrange(0, n as int) =~= self.entries@);
        self.entries = Vec::new();
        tokens
    }
}

} // verus!
