//! Generic id-keyed entity store: atomic id allocation, lookup and removal.
//!
//! The store owns the canonical copy of every entity and assigns each one a
//! fresh integer identity at insertion, from a monotonically increasing
//! per-store counter. Ids are never reassigned while the entity lives, and a
//! later insertion always receives a strictly greater id than an earlier one
//! (counter wraparound is a stated design limit, excluded by precondition).

use vstd::prelude::*;

verus! {

/// An entity that carries a store-assigned integer identity.
pub trait WithId: Sized {
    /// The identity the value currently carries.
    spec fn spec_id(&self) -> u32;

    /// The same value with only its identity replaced.
    spec fn spec_with_id(self, id: u32) -> Self;

    /// Replacing a value's identity yields a value that carries it.
    proof fn lemma_with_id(self, id: u32)
        ensures
            self.spec_with_id(id).spec_id() == id,
    ;

    fn id(&self) -> (r: u32)
        ensures
            r == self.spec_id(),
    ;

    fn set_id(&mut self, id: u32)
        ensures
            *final(self) == old(self).spec_with_id(id),
    ;
}

/// The mathematical model of a store: the counter and the entities it holds,
/// in insertion order.
pub struct StoreModel<T> {
    pub next_id: u32,
    pub entries: Seq<T>,
}

impl<T: WithId> StoreModel<T> {
    /// Well-formedness: every held id is below the counter, and no two
    /// entities carry the same id.
    pub open spec fn wf(self) -> bool {
        &&& forall|i: int|
            0 <= i < self.entries.len() ==> (#[trigger] self.entries[i].spec_id())
                < self.next_id
        &&& forall|i: int, j: int|
            #![trigger self.entries[i].spec_id(), self.entries[j].spec_id()]
            0 <= i < j < self.entries.len() ==> self.entries[i].spec_id()
                != self.entries[j].spec_id()
    }

    pub open spec fn contains_id(self, id: u32) -> bool {
        exists|i: int| 0 <= i < self.entries.len() && (#[trigger] self.entries[i].spec_id()) == id
    }

    pub open spec fn index_of(self, id: u32) -> int {
        choose|i: int| 0 <= i < self.entries.len() && (#[trigger] self.entries[i].spec_id()) == id
    }

    pub open spec fn value_of(self, id: u32) -> T {
        self.entries[self.index_of(id)]
    }

    /// What insertion does: the entity takes the counter's value as its id,
    /// joins the end of the store, and the counter moves up by one.
    pub open spec fn insert(self, t: T) -> (Self, u32) {
        (
            StoreModel {
                next_id: (self.next_id + 1) as u32,
                entries: self.entries.push(t.spec_with_id(self.next_id)),
            },
            self.next_id,
        )
    }

    /// What removal does: the entity with the id leaves; a missing id leaves
    /// the store unchanged.
    pub open spec fn remove_id(self, id: u32) -> Self {
        if self.contains_id(id) {
            StoreModel { next_id: self.next_id, entries: self.entries.remove(self.index_of(id)) }
        } else {
            self
        }
    }

    /// In a well-formed store, any position holding the id is the position of
    /// the id's value.
    pub proof fn lemma_found_is_value(self, id: u32, i: int)
        requires
            self.wf(),
            0 <= i < self.entries.len(),
            self.entries[i].spec_id() == id,
        ensures
            self.contains_id(id),
            self.index_of(id) == i,
            self.value_of(id) == self.entries[i],
    {
        assert(self.contains_id(id));
        let j = self.index_of(id);
        assert(0 <= j < self.entries.len() && self.entries[j].spec_id() == id);
        if i != j {
            assert(self.entries[i].spec_id() != self.entries[j].spec_id());
        }
    }

    /// Everything the insertion model guarantees: the returned id is fresh,
    /// the new entity is found under it, and every other entity keeps its id
    /// and value.
    pub proof fn lemma_insert_properties(self, t: T)
        requires
            self.wf(),
            self.next_id < u32::MAX,
        ensures
            ({
                let (m, id) = self.insert(t);
                &&& m.wf()
                &&& id == self.next_id
                &&& !self.contains_id(id)
                &&& m.contains_id(id)
                &&& m.value_of(id) == t.spec_with_id(id)
                &&& m.entries.len() == self.entries.len() + 1
                &&& forall|j: u32|
                    j != id ==> (#[trigger] m.contains_id(j)) == self.contains_id(j)
                &&& forall|j: u32|
                    j != id && self.contains_id(j) ==> (#[trigger] m.value_of(j)) == self.value_of(
                        j,
                    )
            }),
    {
        let (m, id) = self.insert(t);
        t.lemma_with_id(id);
        let n = self.entries.len() as int;
        assert(m.entries[n] == t.spec_with_id(id));
        assert(forall|i: int|
            0 <= i < n ==> #[trigger] m.entries[i].spec_id() == self.entries[i].spec_id());
        assert(m.wf());
        m.lemma_found_is_value(id, n);
        assert forall|j: u32| j != id implies (#[trigger] m.contains_id(j)) == self.contains_id(
            j,
        ) by {
            if self.contains_id(j) {
                let i = self.index_of(j);
                assert(m.entries[i].spec_id() == j);
            }
            if m.contains_id(j) {
                let i = m.index_of(j);
                assert(i != n);
                assert(self.entries[i].spec_id() == j);
            }
        }
        assert forall|j: u32| j != id && self.contains_id(j) implies (#[trigger] m.value_of(j))
            == self.value_of(j) by {
            let i = self.index_of(j);
            self.lemma_found_is_value(j, i);
            assert(m.entries[i].spec_id() == j);
            m.lemma_found_is_value(j, i);
        }
    }

    /// Everything the removal model guarantees: the id is gone, and every
    /// other entity keeps its id and value.
    pub proof fn lemma_remove_properties(self, id: u32)
        requires
            self.wf(),
        ensures
            ({
                let m = self.remove_id(id);
                &&& m.wf()
                &&& !m.contains_id(id)
                &&& m.next_id == self.next_id
                &&& forall|j: u32|
                    j != id ==> (#[trigger] m.contains_id(j)) == self.contains_id(j)
                &&& forall|j: u32|
                    j != id && self.contains_id(j) ==> (#[trigger] m.value_of(j)) == self.value_of(
                        j,
                    )
            }),
    {
        if !self.contains_id(id) {
            return ;
        }
        let k = self.index_of(id);
        let m = self.remove_id(id);
        assert(m.entries == self.entries.remove(k));
        assert forall|i: int| 0 <= i < m.entries.len() implies (#[trigger] m.entries[i])
            == self.entries[if i < k {
            i
        } else {
            i + 1
        }] by {}
        assert(m.wf());
        if m.contains_id(id) {
            let i = m.index_of(id);
            let oi = if i < k {
                i
            } else {
                i + 1
            };
            assert(self.entries[oi].spec_id() == id);
            self.lemma_found_is_value(id, oi);
        }
        assert forall|j: u32| j != id implies (#[trigger] m.contains_id(j)) == self.contains_id(
            j,
        ) by {
            if self.contains_id(j) {
                let i = self.index_of(j);
                self.lemma_found_is_value(j, i);
                let ni = if i < k {
                    i
                } else {
                    i - 1
                };
                assert(m.entries[ni].spec_id() == j);
            }
            if m.contains_id(j) {
                let i = m.index_of(j);
                let oi = if i < k {
                    i
                } else {
                    i + 1
                };
                assert(self.entries[oi].spec_id() == j);
            }
        }
        assert forall|j: u32| j != id && self.contains_id(j) implies (#[trigger] m.value_of(j))
            == self.value_of(j) by {
            let i = self.index_of(j);
            self.lemma_found_is_value(j, i);
            let ni = if i < k {
                i
            } else {
                i - 1
            };
            assert(m.entries[ni] == self.entries[i]);
            assert(m.entries[ni].spec_id() == j);
            m.lemma_found_is_value(j, ni);
        }
    }

    /// Everything an in-place update guarantees, provided the new value keeps
    /// the entity's id: every id resolves as before, and only the updated
    /// entity's value changes.
    pub proof fn lemma_update_properties(self, i: int, t: T)
        requires
            self.wf(),
            0 <= i < self.entries.len(),
            t.spec_id() == self.entries[i].spec_id(),
        ensures
            ({
                let m = StoreModel { next_id: self.next_id, entries: self.entries.update(i, t) };
                &&& m.wf()
                &&& forall|j: u32| (#[trigger] m.contains_id(j)) == self.contains_id(j)
                &&& m.contains_id(t.spec_id())
                &&& m.value_of(t.spec_id()) == t
                &&& forall|j: u32|
                    j != t.spec_id() && self.contains_id(j) ==> (#[trigger] m.value_of(j))
                        == self.value_of(j)
            }),
    {
        let m = StoreModel { next_id: self.next_id, entries: self.entries.update(i, t) };
        assert(forall|p: int|
            0 <= p < m.entries.len() ==> #[trigger] m.entries[p].spec_id()
                == self.entries[p].spec_id());
        assert(m.wf());
        m.lemma_found_is_value(t.spec_id(), i);
        assert forall|j: u32| (#[trigger] m.contains_id(j)) == self.contains_id(j) by {
            if self.contains_id(j) {
                let p = self.index_of(j);
                assert(m.entries[p].spec_id() == j);
            }
            if m.contains_id(j) {
                let p = m.index_of(j);
                assert(self.entries[p].spec_id() == j);
            }
        }
        assert forall|j: u32| j != t.spec_id() && self.contains_id(j) implies (
        #[trigger] m.value_of(j)) == self.value_of(j) by {
            let p = self.index_of(j);
            self.lemma_found_is_value(j, p);
            assert(p != i);
            assert(m.entries[p].spec_id() == j);
            m.lemma_found_is_value(j, p);
        }
    }
}

/// The concurrent entity store of the running system, in its sequential,
/// verified form: the surrounding application serializes access to it.
pub struct EntityStore<T> {
    next_id: u32,
    entries: Vec<T>,
}

impl<T: WithId> View for EntityStore<T> {
    type V = StoreModel<T>;

    closed spec fn view(&self) -> StoreModel<T> {
        StoreModel { next_id: self.next_id, entries: self.entries@ }
    }
}

impl<T: WithId> EntityStore<T> {
    pub fn new() -> (r: Self)
        ensures
            r@.wf(),
            r@.next_id == 0,
            r@.entries.len() == 0,
    {
        EntityStore { next_id: 0, entries: Vec::new() }
    }

    pub fn next_id(&self) -> (r: u32)
        ensures
            r == self@.next_id,
    {
        self.next_id
    }

    pub fn len(&self) -> (r: usize)
        ensures
            r == self@.entries.len(),
    {
        self.entries.len()
    }

    /// A snapshot view of every held entity, in insertion order.
    pub fn all(&self) -> (r: &Vec<T>)
        ensures
            r@ == self@.entries,
    {
        &self.entries
    }

    /// Assigns the next id to the value, stores it and returns the id.
    pub fn insert(&mut self, t: T) -> (r: u32)
        requires
            old(self)@.wf(),
            old(self)@.next_id < u32::MAX,
        ensures
            (final(self)@, r) == old(self)@.insert(t),
            final(self)@.wf(),
            r == old(self)@.next_id,
            !old(self)@.contains_id(r),
            final(self)@.contains_id(r),
            final(self)@.value_of(r) == t.spec_with_id(r),
            forall|j: u32|
                j != r ==> (#[trigger] final(self)@.contains_id(j)) == old(self)@.contains_id(j),
            forall|j: u32|
                j != r && old(self)@.contains_id(j) ==> (#[trigger] final(self)@.value_of(j))
                    == old(self)@.value_of(j),
    {
        proof {
            old(self)@.lemma_insert_properties(t);
        }
        let id = self.next_id;
        let mut t = t;
        t.set_id(id);
        self.entries.push(t);
        self.next_id = self.next_id + 1;
        id
    }

    pub fn contains(&self, id: u32) -> (r: bool)
        requires
            self@.wf(),
        ensures
            r == self@.contains_id(id),
    {
        let n = self.entries.len();
        let mut i: usize = 0;
        while i < n
            invariant
                self@.wf(),
                n == self.entries.len(),
                0 <= i <= n,
                forall|p: int| 0 <= p < i ==> (#[trigger] self.entries@[p].spec_id()) != id,
            decreases n - i,
        {
            if self.entries[i].id() == id {
                proof {
                    self@.lemma_found_is_value(id, i as int);
                }
                return true;
            }
            i = i + 1;
        }
        false
    }

    /// Read-only access to the entity with the id, if it is held.
    pub fn get(&self, id: u32) -> (r: Option<&T>)
        requires
            self@.wf(),
        ensures
            match r {
                Some(v) => self@.contains_id(id) && *v == self@.value_of(id),
                None => !self@.contains_id(id),
            },
    {
        let n = self.entries.len();
        let mut i: usize = 0;
        while i < n
            invariant
                self@.wf(),
                n == self.entries.len(),
                0 <= i <= n,
                forall|p: int| 0 <= p < i ==> (#[trigger] self.entries@[p].spec_id()) != id,
            decreases n - i,
        {
            if self.entries[i].id() == id {
                proof {
                    self@.lemma_found_is_value(id, i as int);
                }
                return Some(&self.entries[i]);
            }
            i = i + 1;
        }
        None
    }

    /// Exclusive access to the entity with the id. The caller must put a
    /// value with the same id back through the reference to keep the store
    /// well-formed.
    pub fn borrow_mut(&mut self, id: u32) -> (r: &mut T)
        requires
            old(self)@.wf(),
            old(self)@.contains_id(id),
        ensures
            *r == old(self)@.value_of(id),
            final(self)@.next_id == old(self)@.next_id,
            final(self)@.entries == old(self)@.entries.update(
                old(self)@.index_of(id),
                *final(r),
            ),
    {
        let n = self.entries.len();
        let mut i: usize = 0;
        loop
            invariant
                self == old(self),
                n == self.entries.len(),
                0 <= i <= n,
                old(self)@.contains_id(id),
                old(self)@.wf(),
                forall|p: int| 0 <= p < i ==> (#[trigger] self.entries@[p].spec_id()) != id,
            decreases n - i,
        {
            if i >= n {
                proof {
                    let w = old(self)@.index_of(id);
                    assert(old(self)@.entries[w].spec_id() == id);
                    assert(false);
                }
                unreached()
            } else {
                if self.entries[i].id() == id {
                    proof {
                        self@.lemma_found_is_value(id, i as int);
                    }
                    return &mut self.entries[i];
                }
                i = i + 1;
            }
        }
    }

    /// Removes and returns the entity with the id; a missing id is a no-op.
    pub fn take(&mut self, id: u32) -> (r: Option<T>)
        requires
            old(self)@.wf(),
        ensures
            final(self)@ == old(self)@.remove_id(id),
            final(self)@.wf(),
            !final(self)@.contains_id(id),
            match r {
                Some(v) => old(self)@.contains_id(id) && v == old(self)@.value_of(id),
                None => !old(self)@.contains_id(id) && final(self)@ == old(self)@,
            },
            forall|j: u32|
                j != id ==> (#[trigger] final(self)@.contains_id(j)) == old(self)@.contains_id(j),
            forall|j: u32|
                j != id && old(self)@.contains_id(j) ==> (#[trigger] final(self)@.value_of(j))
                    == old(self)@.value_of(j),
    {
        proof {
            old(self)@.lemma_remove_properties(id);
        }
        let n = self.entries.len();
        let mut i: usize = 0;
        while i < n
            invariant
                self == old(self),
                n == self.entries.len(),
                0 <= i <= n,
                old(self)@.wf(),
                forall|p: int| 0 <= p < i ==> (#[trigger] self.entries@[p].spec_id()) != id,
            decreases n - i,
        {
            if self.entries[i].id() == id {
                proof {
                    self@.lemma_found_is_value(id, i as int);
                    self@.lemma_remove_properties(id);
                }
                let v = self.entries.remove(i);
                return Some(v);
            }
            i = i + 1;
        }
        None
    }

    /// The first entity the predicate accepts, in an iteration order the
    /// store does not promise: callers must rely on it only where at most
    /// one entity can match.
    pub fn find<F: Fn(&T) -> bool>(&self, f: F) -> (r: Option<&T>)
        requires
            forall|t: &T| #[trigger] f.requires((t,)),
        ensures
            match r {
                Some(v) => exists|i: int|
                    0 <= i < self@.entries.len() && (#[trigger] self@.entries[i]) == *v
                        && f.ensures((&self@.entries[i],), true),
                None => forall|i: int|
                    0 <= i < self@.entries.len() ==> f.ensures((&(#[trigger] self@.entries[i]),), false),
            },
    {
        let n = self.entries.len();
        let mut i: usize = 0;
        while i < n
            invariant
                forall|t: &T| #[trigger] f.requires((t,)),
                n == self.entries.len(),
                0 <= i <= n,
                forall|p: int|
                    0 <= p < i ==> f.ensures((&(#[trigger] self.entries@[p]),), false),
            decreases n - i,
        {
            if f(&self.entries[i]) {
                proof {
                    assert(self@.entries[i as int] == self.entries@[i as int]);
                }
                return Some(&self.entries[i]);
            }
            i = i + 1;
        }
        None
    }

    /// Removes the entity with the id, if it is held.
    pub fn remove(&mut self, id: u32)
        requires
            old(self)@.wf(),
        ensures
            final(self)@ == old(self)@.remove_id(id),
            final(self)@.wf(),
            !final(self)@.contains_id(id),
            forall|j: u32|
                j != id ==> (#[trigger] final(self)@.contains_id(j)) == old(self)@.contains_id(j),
            forall|j: u32|
                j != id && old(self)@.contains_id(j) ==> (#[trigger] final(self)@.value_of(j))
                    == old(self)@.value_of(j),
    {
        let _ = self.take(id);
    }
}

/// The ids a run of insertions hands out, in order.
pub open spec fn insert_all<T: WithId>(m: StoreModel<T>, ts: Seq<T>) -> (StoreModel<T>, Seq<u32>)
    decreases ts.len(),
{
    if ts.len() == 0 {
        (m, Seq::empty())
    } else {
        let (m1, i) = m.insert(ts[0]);
        let (m2, rest) = insert_all(m1, ts.drop_first());
        (m2, seq![i] + rest)
    }
}

/// Law: over any sequence of insertions, the k-th insertion returns the
/// counter's starting value plus k; ids are therefore pairwise distinct and
/// strictly increasing in call order.
pub proof fn lemma_insert_ids_strictly_increasing<T: WithId>(m: StoreModel<T>, ts: Seq<T>)
    requires
        m.next_id + ts.len() <= u32::MAX,
    ensures
        ({
            let (mz, ids) = insert_all(m, ts);
            &&& ids.len() == ts.len()
            &&& forall|k: int| 0 <= k < ids.len() ==> (#[trigger] ids[k]) == m.next_id + k
            &&& forall|p: int, q: int|
                #![trigger ids[p], ids[q]]
                0 <= p < q < ids.len() ==> ids[p] < ids[q]
        }),
    decreases ts.len(),
{
    if ts.len() > 0 {
        let (m1, i) = m.insert(ts[0]);
        lemma_insert_ids_strictly_increasing(m1, ts.drop_first());
        let (m2, rest) = insert_all(m1, ts.drop_first());
        let ids = seq![i] + rest;
        assert(ids[0] == m.next_id);
        assert(forall|k: int| 0 <= k < rest.len() ==> (#[trigger] rest[k]) == m1.next_id + k);
        assert(forall|k: int| 0 < k < ids.len() ==> (#[trigger] ids[k]) == rest[k - 1]);
    }
}

} // verus!
