//! Transactions over connectors of several kinds: the connectors of one
//! kind are changed by one part, the parts are prepared and applied in
//! turn, and an applied transaction is either committed, after which the
//! new states are published, or rolled back part by part in the reverse
//! order.

use vstd::prelude::*;
use crate::backend::BackendConnectorState;
use ahash::AHashMap;

verus! {

/// The parts of a transaction by kind: the index of each kind's part.
pub type PartMap = AHashMap<u64, usize>;

/// The states the connectors get, by connector id.
pub type StateMap = AHashMap<u64, BackendConnectorState>;

/// What a map of parts holds.
pub uninterp spec fn part_map_entries(m: PartMap) -> Map<u64, usize>;

/// What a map of states holds.
pub uninterp spec fn state_map_entries(m: StateMap) -> Map<u64, BackendConnectorState>;

/// No parts.
pub open spec fn spec_no_parts() -> Map<u64, usize> {
    Map::empty()
}

/// No states.
pub open spec fn spec_no_states() -> Map<u64, BackendConnectorState> {
    Map::empty()
}

/// Calls `AHashMap::new`. The contract claims that the map is empty.
#[verifier::external_body]
fn part_map_new() -> (r: PartMap)
    ensures
        part_map_entries(r) == spec_no_parts(),
{
    AHashMap::new()
}

/// Calls `AHashMap::get` and copies the value out. The contract claims that
/// the result is the value stored under the key, if any.
#[verifier::external_body]
fn part_map_get(m: &PartMap, k: u64) -> (r: Option<usize>)
    ensures
        r == (if part_map_entries(*m).contains_key(k) {
            Some(part_map_entries(*m)[k])
        } else {
            None
        }),
{
    m.get(&k).copied()
}

/// Calls `AHashMap::insert`. The contract claims that the key maps to the
/// value afterwards and that the other entries stay.
#[verifier::external_body]
fn part_map_insert(m: &mut PartMap, k: u64, v: usize)
    ensures
        part_map_entries(*final(m)) == part_map_entries(*old(m)).insert(k, v),
{
    m.insert(k, v);
}

/// Calls `AHashMap::iter` and copies the entries out, in the map's order.
/// The contract claims that each entry of the map occurs exactly once; the
/// order, which depends on the map's random seed, is left open.
#[verifier::external_body]
fn part_map_entries_vec(m: &PartMap) -> (r: Vec<(u64, usize)>)
    ensures
        forall|a: int, b: int| 0 <= a < b < r@.len() ==> r@[a].0 != r@[b].0,
        forall|a: int|
            0 <= a < r@.len() ==> part_map_entries(*m).contains_key(#[trigger] r@[a].0) && part_map_entries(*m)[r@[a].0]
                == r@[a].1,
        forall|k: u64| part_map_entries(*m).contains_key(k) ==> exists|a: int| 0 <= a < r@.len() && #[trigger] r@[a].0 == k,
{
    m.iter().map(|(k, v)| (*k, *v)).collect()
}

/// Calls `AHashMap::new`. The contract claims that the map is empty.
#[verifier::external_body]
fn state_map_new() -> (r: StateMap)
    ensures
        state_map_entries(r) == spec_no_states(),
{
    AHashMap::new()
}

/// Calls `AHashMap::insert`. The contract claims that the key maps to the
/// value afterwards and that the other entries stay.
#[verifier::external_body]
fn state_map_insert(m: &mut StateMap, k: u64, v: BackendConnectorState)
    ensures
        state_map_entries(*final(m)) == state_map_entries(*old(m)).insert(k, v),
{
    m.insert(k, v);
}

/// Calls `AHashMap::drain` and collects the entries, in the map's order.
/// The contract claims that the map is empty afterwards and that each of
/// its entries occurs exactly once; the order, which depends on the map's
/// random seed, is left open.
#[verifier::external_body]
fn state_map_drain(m: &mut StateMap) -> (r: Vec<(u64, BackendConnectorState)>)
    ensures
        state_map_entries(*final(m)) == spec_no_states(),
        forall|a: int, b: int| 0 <= a < b < r@.len() ==> r@[a].0 != r@[b].0,
        forall|a: int|
            0 <= a < r@.len() ==> state_map_entries(*old(m)).contains_key(#[trigger] r@[a].0) && state_map_entries(
                *old(m),
            )[r@[a].0] == r@[a].1,
        forall|k: u64|
            state_map_entries(*old(m)).contains_key(k) ==> exists|a: int| 0 <= a < r@.len() && #[trigger] r@[a].0 == k,
{
    m.drain().collect()
}

/// A transaction being put together: one part per kind of connector,
/// numbered in the order the parts were created, and the states the
/// connectors get when the transaction commits.
pub struct ConnectorTransaction {
    parts: PartMap,
    num_parts: usize,
    states: StateMap,
}

impl ConnectorTransaction {
    /// The part of each kind.
    pub closed spec fn spec_parts(&self) -> Map<u64, usize> {
        part_map_entries(self.parts)
    }

    /// The number of parts.
    pub closed spec fn spec_num_parts(&self) -> nat {
        self.num_parts as nat
    }

    /// The recorded states by connector id.
    pub closed spec fn spec_states(&self) -> Map<u64, BackendConnectorState> {
        state_map_entries(self.states)
    }

    /// The parts are numbered from 0, one number per kind.
    pub open spec fn wf(&self) -> bool {
        &&& forall|k: u64| #[trigger] self.spec_parts().contains_key(k) ==> self.spec_parts()[k] < self.spec_num_parts()
        &&& forall|k1: u64, k2: u64|
            #[trigger] self.spec_parts().contains_key(k1) && #[trigger] self.spec_parts().contains_key(k2) && k1 != k2
                ==> self.spec_parts()[k1] != self.spec_parts()[k2]
        &&& forall|i: int| 0 <= i < self.spec_num_parts() ==> #[trigger] self.spec_numbered(i)
    }

    /// Whether some kind's part has the number.
    pub open spec fn spec_numbered(&self, i: int) -> bool {
        exists|k: u64| #[trigger] self.spec_parts().contains_key(k) && self.spec_parts()[k] == i
    }

    /// An empty transaction.
    pub fn new() -> (r: Self)
        ensures
            r.wf(),
            r.spec_num_parts() == 0,
            r.spec_parts() == Map::<u64, usize>::empty(),
            r.spec_states() == Map::<u64, BackendConnectorState>::empty(),
    {
        ConnectorTransaction { parts: part_map_new(), num_parts: 0, states: state_map_new() }
    }

    /// The number of parts.
    pub fn num_parts(&self) -> (r: usize)
        ensures
            r == self.spec_num_parts(),
    {
        self.num_parts
    }

    /// The part that changes connectors of the kind, if there is one yet.
    pub fn part_of(&self, kind: u64) -> (r: Option<usize>)
        ensures
            r == (if self.spec_parts().contains_key(kind) {
                Some(self.spec_parts()[kind])
            } else {
                None
            }),
    {
        part_map_get(&self.parts, kind)
    }

    /// Adds the part of a kind that has none yet, once the part was
    /// created; returns its number, the next one.
    pub fn add_part(&mut self, kind: u64) -> (r: usize)
        requires
            old(self).wf(),
            !old(self).spec_parts().contains_key(kind),
            old(self).spec_num_parts() < usize::MAX,
        ensures
            final(self).wf(),
            r == old(self).spec_num_parts(),
            final(self).spec_num_parts() == old(self).spec_num_parts() + 1,
            final(self).spec_parts() == old(self).spec_parts().insert(kind, r),
            final(self).spec_states() == old(self).spec_states(),
    {
        let r = self.num_parts;
        part_map_insert(&mut self.parts, kind, r);
        self.num_parts = r + 1;
        proof {
            let p = self.spec_parts();
            assert forall|i: int| 0 <= i < self.spec_num_parts() implies #[trigger] self.spec_numbered(i) by {
                if i == r {
                    assert(p.contains_key(kind) && p[kind] == i);
                } else {
                    assert(old(self).spec_numbered(i));
                    let k = choose|k: u64| #[trigger] old(self).spec_parts().contains_key(k) && old(self).spec_parts()[k] == i;
                    assert(p.contains_key(k) && p[k] == i);
                }
            }
        }
        r
    }

    /// Records the state the connector gets, once its part accepted it;
    /// it replaces one recorded before for the connector.
    pub fn record(&mut self, connector: u64, state: BackendConnectorState)
        ensures
            final(self).spec_parts() == old(self).spec_parts(),
            final(self).spec_num_parts() == old(self).spec_num_parts(),
            final(self).spec_states() == old(self).spec_states().insert(connector, state),
    {
        state_map_insert(&mut self.states, connector, state);
    }

    /// The numbers of the parts in the order in which they are prepared:
    /// the map's order, each part once.
    pub fn part_order(&self) -> (r: Vec<usize>)
        requires
            self.wf(),
        ensures
            forall|a: int, b: int| 0 <= a < b < r@.len() ==> r@[a] != r@[b],
            forall|a: int| 0 <= a < r@.len() ==> #[trigger] r@[a] < self.spec_num_parts(),
            forall|i: int| 0 <= i < self.spec_num_parts() ==> #[trigger] r@.contains(i as usize),
    {
        let entries = part_map_entries_vec(&self.parts);
        let mut r: Vec<usize> = Vec::new();
        let mut a: usize = 0;
        while a < entries.len()
            invariant
                a <= entries@.len(),
                r@.len() == a,
                forall|x: int| 0 <= x < a ==> #[trigger] r@[x] == entries@[x].1,
            decreases entries@.len() - a,
        {
            r.push(entries[a].1);
            a += 1;
        }
        proof {
            let p = self.spec_parts();
            assert forall|x: int, y: int| 0 <= x < y < r@.len() implies r@[x] != r@[y] by {
                assert(entries@[x].0 != entries@[y].0);
                assert(p.contains_key(entries@[x].0) && p.contains_key(entries@[y].0));
            }
            assert forall|x: int| 0 <= x < r@.len() implies #[trigger] r@[x] < self.spec_num_parts() by {
                assert(p.contains_key(entries@[x].0));
            }
            assert forall|i: int| 0 <= i < self.spec_num_parts() implies #[trigger] r@.contains(i as usize) by {
                assert(self.spec_numbered(i));
                let k = choose|k: u64| #[trigger] p.contains_key(k) && p[k] == i;
                let x = choose|x: int| 0 <= x < entries@.len() && #[trigger] entries@[x].0 == k;
                assert(r@[x] == i);
            }
        }
        r
    }

    /// Hands out the recorded states, each connector's once, in the map's
    /// order; none is left.
    pub fn take_states(&mut self) -> (r: Vec<(u64, BackendConnectorState)>)
        ensures
            final(self).spec_states() == Map::<u64, BackendConnectorState>::empty(),
            final(self).spec_parts() == old(self).spec_parts(),
            final(self).spec_num_parts() == old(self).spec_num_parts(),
            forall|a: int, b: int| 0 <= a < b < r@.len() ==> r@[a].0 != r@[b].0,
            forall|a: int|
                0 <= a < r@.len() ==> old(self).spec_states().contains_key(#[trigger] r@[a].0) && old(self).spec_states()[r@[a].0]
                    == r@[a].1,
            forall|k: u64|
                old(self).spec_states().contains_key(k) ==> exists|a: int| 0 <= a < r@.len() && #[trigger] r@[a].0 == k,
    {
        state_map_drain(&mut self.states)
    }
}

/// The parts of a transaction that were applied, in the order they were.
pub struct AppliedParts {
    pub applied: Vec<usize>,
}

impl AppliedParts {
    /// No part applied yet.
    pub fn new() -> (r: Self)
        ensures
            r.applied@.len() == 0,
    {
        AppliedParts { applied: Vec::new() }
    }

    /// Notes that the part was applied.
    pub fn push(&mut self, part: usize)
        ensures
            final(self).applied@ == old(self).applied@.push(part),
    {
        self.applied.push(part);
    }

    /// The parts to commit, in the order they were applied; none is left
    /// to roll back afterwards.
    pub fn commit(&mut self) -> (r: Vec<usize>)
        ensures
            r@ == old(self).applied@,
            final(self).applied@.len() == 0,
    {
        let mut r: Vec<usize> = Vec::new();
        std::mem::swap(&mut r, &mut self.applied);
        r
    }

    /// The parts to roll back, in the reverse order of their application;
    /// none is left afterwards.
    pub fn rollback(&mut self) -> (r: Vec<usize>)
        ensures
            r@ == old(self).applied@.reverse(),
            final(self).applied@.len() == 0,
    {
        let mut res: Vec<usize> = Vec::new();
        let n = self.applied.len();
        let mut i: usize = n;
        while i > 0
            invariant
                i <= n,
                n == self.applied@.len(),
                self.applied@ == old(self).applied@,
                res@ == old(self).applied@.reverse().take((n - i) as int),
            decreases i,
        {
            i -= 1;
            res.push(self.applied[i]);
            assert(res@ =~= old(self).applied@.reverse().take((n - i) as int));
        }
        assert(res@ =~= old(self).applied@.reverse());
        self.applied = Vec::new();
        res
    }
}

/// The application of a transaction's parts, one after the other: it stops
/// at the first part that fails, and the parts applied before it are then
/// rolled back, the last applied first.
pub struct ApplyRun {
    pub total: usize,
    pub next: usize,
    pub failed: bool,
    pub applied: AppliedParts,
}

impl ApplyRun {
    /// Until a part fails, the parts applied so far are the first `next`,
    /// in order; once one failed, they were handed out for rollback.
    pub open spec fn wf(&self) -> bool {
        &&& self.next <= self.total
        &&& !self.failed ==> self.applied.applied@ == Seq::new(self.next as nat, |k: int| k as usize)
        &&& self.failed ==> self.next < self.total && self.applied.applied@.len() == 0
    }

    /// Starts applying `total` parts.
    pub fn new(total: usize) -> (r: Self)
        ensures
            r.wf(),
            r.total == total,
            r.next == 0,
            !r.failed,
    {
        let r = ApplyRun { total, next: 0, failed: false, applied: AppliedParts::new() };
        assert(r.applied.applied@ =~= Seq::new(0, |k: int| k as usize));
        r
    }

    /// The part to apply next: none once every part is applied or one
    /// failed.
    pub fn next_part(&self) -> (r: Option<usize>)
        requires
            self.wf(),
        ensures
            r == (if !self.failed && self.next < self.total {
                Some(self.next)
            } else {
                None
            }),
    {
        if !self.failed && self.next < self.total {
            Some(self.next)
        } else {
            None
        }
    }

    /// The part asked for was applied.
    pub fn part_applied(&mut self)
        requires
            old(self).wf(),
            !old(self).failed,
            old(self).next < old(self).total,
        ensures
            final(self).wf(),
            !final(self).failed,
            final(self).total == old(self).total,
            final(self).next == old(self).next + 1,
            final(self).applied.applied@ == old(self).applied.applied@.push(old(self).next),
    {
        let n = self.next;
        self.applied.push(n);
        self.next = n + 1;
        assert(self.applied.applied@ =~= Seq::new(self.next as nat, |k: int| k as usize));
    }

    /// The part asked for failed: no later part is applied, and the parts
    /// applied before it are returned for rollback, the last applied first.
    pub fn part_failed(&mut self) -> (r: Vec<usize>)
        requires
            old(self).wf(),
            !old(self).failed,
            old(self).next < old(self).total,
        ensures
            final(self).wf(),
            final(self).failed,
            final(self).total == old(self).total,
            final(self).next == old(self).next,
            r@ == Seq::new(old(self).next as nat, |k: int| k as usize).reverse(),
            final(self).applied.applied@.len() == 0,
    {
        self.failed = true;
        self.applied.rollback()
    }
}

/// Rolling back undoes every applied part exactly once, the last applied
/// first.
pub proof fn lemma_rollback_reverses(applied: Seq<usize>, k: int)
    requires
        0 <= k < applied.len(),
    ensures
        applied.reverse()[k] == applied[applied.len() - 1 - k],
        applied.reverse().len() == applied.len(),
{
}

} // verus!
