//! The quiz registry: a slot table from a small integer id to the intake
//! token of a live quiz. An insert allocates the lowest id not currently
//! in use, so the id of a closed quiz is the first to be reused by a
//! later create.

use vstd::prelude::*;

verus! {

/// The table of a registry with no quiz in flight.
pub open spec fn no_slots() -> Map<int, u64> {
    Map::empty()
}

/// The entries a slot table currently holds: each occupied position,
/// keyed by its index, mapped to the token stored there.
pub open spec fn table_entries(slots: Seq<Option<u64>>) -> Map<int, u64> {
    Map::new(
        |k: int| 0 <= k < slots.len() && slots[k] is Some,
        |k: int| slots[k]->0,
    )
}

/// The slot table of all in-flight quizzes. Each live quiz occupies one
/// slot, keyed by the small integer id that participants vote against;
/// the slot's value is the intake token under which the surrounding
/// runtime reaches that quiz's vote channel.
pub struct Registry {
    slots: Vec<Option<u64>>,
}

impl View for Registry {
    type V = Map<int, u64>;

    closed spec fn view(&self) -> Map<int, u64> {
        table_entries(self.slots@)
    }
}

impl Registry {
    /// An empty registry: no quiz is in flight.
    pub fn new() -> (r: Registry)
        ensures
            r@ == no_slots(),
    {
        let r = Registry { slots: Vec::new() };
        proof {
            assert(r@ =~= no_slots());
        }
        r
    }

    /// Allocates the lowest unused slot id for a new quiz and binds it
    /// to the quiz's intake token: every id below the returned one is in
    /// use, and the returned one was not.
    pub fn insert(&mut self, token: u64) -> (id: usize)
        ensures
            !old(self)@.contains_key(id as int),
            forall|k: int| 0 <= k < id ==> old(self)@.contains_key(k),
            final(self)@ == old(self)@.insert(id as int, token),
    {
        let n = self.slots.len();
        let mut i: usize = 0;
        while i < n
            invariant
                0 <= i <= n,
                n == self.slots@.len(),
                *self == *old(self),
                forall|j: int| 0 <= j < i ==> self.slots@[j] is Some,
            decreases n - i,
        {
            if self.slots[i].is_none() {
                self.slots[i] = Some(token);
                proof {
                    assert(self@ =~= old(self)@.insert(i as int, token));
                }
                return i;
            }
            i = i + 1;
        }
        self.slots.push(Some(token));
        proof {
            assert(!old(self)@.contains_key(n as int));
            assert(self@ =~= old(self)@.insert(n as int, token));
        }
        i
    }

    /// Looks a slot id up; yields the intake token exactly when a quiz
    /// with that id is in flight.
    pub fn lookup(&self, id: usize) -> (r: Option<u64>)
        ensures
            match r {
                Some(token) => self@.contains_key(id as int) && token == self@[id as int],
                None => !self@.contains_key(id as int),
            },
    {
        if id < self.slots.len() {
            self.slots[id]
        } else {
            None
        }
    }

    /// Frees a slot, making its id invalid for lookup and the first
    /// candidate for reuse by a later insert. Removing an id that is not
    /// in flight changes nothing.
    pub fn remove(&mut self, id: usize) -> (removed: bool)
        ensures
            final(self)@ == old(self)@.remove(id as int),
            removed == old(self)@.contains_key(id as int),
    {
        if id < self.slots.len() {
            if self.slots[id].is_some() {
                self.slots[id] = None;
                proof {
                    assert(self@ =~= old(self)@.remove(id as int));
                }
                return true;
            }
        }
        proof {
            assert(self@ =~= old(self)@.remove(id as int));
        }
        false
    }
}

/// Reuse law: once the quiz holding the lowest free id's slot closes,
/// the very next allocation hands that id out again. Any id that is
/// fresh and lowest-free in the table left behind by removing `id` —
/// as an insert's contract demands — is `id` itself, whenever every id
/// below `id` is still in use.
pub proof fn lemma_closed_id_reused(m: Map<int, u64>, id: usize, fresh: usize)
    requires
        m.contains_key(id as int),
        forall|k: int| 0 <= k < id ==> m.contains_key(k),
        !m.remove(id as int).contains_key(fresh as int),
        forall|k: int| 0 <= k < fresh ==> m.remove(id as int).contains_key(k),
    ensures
        fresh == id,
{
    if fresh > id {
        assert(m.remove(id as int).contains_key(id as int));
    }
    if fresh < id {
        assert(m.contains_key(fresh as int));
        assert(m.remove(id as int).contains_key(fresh as int));
    }
}

} // verus!
