//! The table of sessions: one payload per identifier.

use crate::data::AxumSessionData;
use crate::data::SessionState;
use crate::id::random_uuid;
use crate::id::AxumSessionID;
use std::collections::hash_map::Entry;
use std::collections::HashMap;
use vstd::prelude::*;
use vstd::std_specs::hash::*;

verus! {

/// The largest number of draws that [`AxumSessionStore::generate_unique_id`]
/// can count: as many as a 64-bit counter holds.
///
/// No machine makes that many, so every identifier it issues is one that was
/// drawn. The limit is there for the search to have an end that can be
/// proved: a draw that reached it and had an entry would be searched upward
/// from.
pub const DRAW_LIMIT: u64 = 0xffff_ffff_ffff_ffff;

/// The identifier reached from `start` in `steps` steps of one, past the
/// largest identifier back to zero.
pub open spec fn probe(start: u128, steps: nat) -> u128 {
    ((start + steps) % (u128::MAX + 1)) as u128
}

/// The table with an entry for `id`: the one it had, or an empty one where it
/// had none.
pub open spec fn opened(table: Map<u128, SessionState>, id: u128) -> Map<u128, SessionState> {
    if table.contains_key(id) {
        table
    } else {
        table.insert(id, SessionState::fresh())
    }
}

/// Whether `free` is the first identifier, counting up from `start` and past
/// the largest back to zero, that `table` has no entry for.
pub open spec fn first_free(table: Map<u128, SessionState>, start: u128, free: u128) -> bool {
    exists|steps: nat|
        free == #[trigger] probe(start, steps) && !table.contains_key(free) && forall|j: nat|
            j < steps ==> table.contains_key(#[trigger] probe(start, j))
}

/// Identifiers reached from one start in fewer steps than there are
/// identifiers are distinct, so a finite set that holds the first `steps` of
/// them has at least `steps` members.
pub proof fn lemma_probes_fill(taken: Set<u128>, start: u128, steps: nat)
    requires
        taken.finite(),
        steps <= u128::MAX + 1,
        forall|j: nat| j < steps ==> taken.contains(#[trigger] probe(start, j)),
    ensures
        steps <= taken.len(),
    decreases steps,
{
    if steps > 0 {
        let last = probe(start, (steps - 1) as nat);
        let rest = taken.remove(last);
        assert forall|j: nat| j < steps - 1 implies rest.contains(#[trigger] probe(start, j)) by {
            assert(taken.contains(probe(start, j)));
            assert(probe(start, j) != last);
        }
        lemma_probes_fill(rest, start, (steps - 1) as nat);
    }
}

/// The sessions that are resident in memory, with the settings that the
/// handles read: the name of the session cookie, and whether a durable
/// backend mirrors the table.
///
/// Its value is the map from the 128 bits of each identifier to that
/// session's payload, so an identifier has at most one entry. The table's
/// own operations add, delete and read entries; a payload is written through
/// [`crate::session::AxumSession::tap`] and the operations built on it.
pub struct AxumSessionStore {
    inner: HashMap<u128, AxumSessionData>,
    cookie_name: String,
    persistent: bool,
}

impl View for AxumSessionStore {
    type V = Map<u128, SessionState>;

    closed spec fn view(&self) -> Map<u128, SessionState> {
        self.inner@.map_values(|entry: AxumSessionData| entry@)
    }
}

impl AxumSessionStore {
    /// The name of the cookie that carries a session's identifier.
    pub closed spec fn cookie(&self) -> Seq<char> {
        self.cookie_name@
    }

    /// Whether a durable backend mirrors the table.
    pub closed spec fn persistent(&self) -> bool {
        self.persistent
    }

    /// Whether `other` has the settings of `self`.
    pub open spec fn same_settings(&self, other: &AxumSessionStore) -> bool {
        self.cookie() == other.cookie() && self.persistent() == other.persistent()
    }

    /// An empty table with the given settings.
    pub fn new(cookie_name: &str, persistent: bool) -> (store: AxumSessionStore)
        ensures
            store@ == Map::<u128, SessionState>::empty(),
            store.cookie() == cookie_name@,
            store.persistent() == persistent,
    {
        let store = AxumSessionStore {
            inner: HashMap::new(),
            cookie_name: cookie_name.to_owned(),
            persistent,
        };
        assert(store@ =~= Map::<u128, SessionState>::empty());
        store
    }

    /// The name of the cookie that carries a session's identifier.
    pub fn cookie_name(&self) -> (name: &str)
        ensures
            name@ == self.cookie(),
    {
        self.cookie_name.as_str()
    }

    /// Whether a durable backend mirrors the table.
    pub fn is_persistent(&self) -> (persistent: bool)
        ensures
            persistent == self.persistent(),
    {
        self.persistent
    }

    /// The number of sessions resident in memory.
    pub fn len(&self) -> (count: usize)
        ensures
            count == self@.len(),
            self@.dom().finite(),
    {
        broadcast use group_hash_axioms;

        assert(self@.dom() =~= self.inner@.dom());
        self.inner.len()
    }

    /// Whether the table has an entry for `id`.
    pub fn contains(&self, id: AxumSessionID) -> (present: bool)
        ensures
            present == self@.contains_key(id.0),
    {
        broadcast use group_hash_axioms;

        self.inner.contains_key(&id.0)
    }

    /// The payload of session `id`, or `None` where the table has no entry
    /// for it.
    pub fn get(&self, id: AxumSessionID) -> (found: Option<&AxumSessionData>)
        ensures
            match found {
                Some(entry) => self@.contains_key(id.0) && entry@ == self@[id.0],
                None => !self@.contains_key(id.0),
            },
    {
        broadcast use group_hash_axioms;

        self.inner.get(&id.0)
    }

    /// The entry of session `id`, created empty where the table had none.
    ///
    /// No other entry changes, and an entry that was there stays as it was.
    pub fn get_or_create(&mut self, id: AxumSessionID) -> (entry: &AxumSessionData)
        ensures
            final(self)@ == opened(old(self)@, id.0),
            entry@ == final(self)@[id.0],
            final(self).same_settings(old(self)),
    {
        broadcast use group_hash_axioms;

        let entry = self.inner.entry(id.0).or_insert(AxumSessionData::new());
        &*entry
    }

    /// The entry of session `id` for writing, or `None` where the table has
    /// no entry for it.
    ///
    /// What the caller writes through the reference is what the table then
    /// holds for `id`; no other entry changes.
    pub(crate) fn get_mut(&mut self, id: AxumSessionID) -> (found: Option<&mut AxumSessionData>)
        ensures
            final(self).same_settings(old(self)),
            match found {
                Some(entry) => old(self)@.contains_key(id.0) && (*entry)@ == old(self)@[id.0]
                    && final(self)@ == old(self)@.insert(id.0, (*final(entry))@),
                None => !old(self)@.contains_key(id.0) && final(self)@ == old(self)@,
            },
    {
        broadcast use group_hash_axioms;

        match self.inner.entry(id.0) {
            Entry::Occupied(occupied) => Some(occupied.into_mut()),
            Entry::Vacant(_) => None,
        }
    }

    /// Deletes the entry of session `id`, if there is one.
    pub fn remove(&mut self, id: AxumSessionID)
        ensures
            final(self)@ == old(self)@.remove(id.0),
            final(self).same_settings(old(self)),
    {
        broadcast use group_hash_axioms;

        self.inner.remove(&id.0);
        assert(self@ =~= old(self)@.remove(id.0));
    }

    /// The first identifier, counting up from `start` and past the largest
    /// back to zero, that has no entry in the table.
    ///
    /// There is one within as many steps as the table has entries, so the
    /// search ends.
    pub fn first_free_from(&self, start: AxumSessionID) -> (free: AxumSessionID)
        ensures
            first_free(self@, start.0, free.0),
    {
        let resident: usize = self.len();
        let mut candidate: u128 = start.0;
        let mut steps: usize = 0;
        while self.contains(AxumSessionID(candidate))
            invariant
                self@.dom().finite(),
                resident == self@.len(),
                steps <= resident,
                candidate == probe(start.0, steps as nat),
                forall|j: nat| j < steps ==> self@.contains_key(#[trigger] probe(start.0, j)),
            decreases resident - steps,
        {
            proof {
                assert forall|j: nat| j < steps + 1 implies self@.dom().contains(
                    #[trigger] probe(start.0, j),
                ) by {
                    if j < steps {
                        assert(self@.contains_key(probe(start.0, j)));
                    }
                }
                lemma_probes_fill(self@.dom(), start.0, (steps + 1) as nat);
            }
            candidate = if candidate == u128::MAX {
                0
            } else {
                candidate + 1
            };
            steps = steps + 1;
        }
        AxumSessionID(candidate)
    }

    /// Decides what becomes of `candidate`, the `draws`-th identifier drawn
    /// in one search for a free one.
    ///
    /// A candidate without an entry is the answer. One that has an entry is
    /// passed over, `None`, and the search draws again. Only where the count
    /// of draws has reached [`DRAW_LIMIT`], which no search does, the answer
    /// is the first free identifier from the candidate upward.
    pub fn settle(&self, candidate: AxumSessionID, draws: u64) -> (next: Option<AxumSessionID>)
        ensures
            !self@.contains_key(candidate.0) ==> next == Some(candidate),
            self@.contains_key(candidate.0) && draws < DRAW_LIMIT ==> next is None,
            self@.contains_key(candidate.0) && draws >= DRAW_LIMIT ==> (next matches Some(id)
                && first_free(self@, candidate.0, id.0)),
    {
        if !self.contains(candidate) {
            Some(candidate)
        } else if draws < DRAW_LIMIT {
            None
        } else {
            Some(self.first_free_from(candidate))
        }
    }

    /// An identifier that has no entry in the table.
    ///
    /// Draws random identifiers and hands each to [`AxumSessionStore::settle`],
    /// until one is settled: the result is the first draw that is free, and
    /// every draw before it is passed over. The draws are counted, and the
    /// count cannot pass [`DRAW_LIMIT`], so the search has an end.
    ///
    /// The table is only read. Nothing is reserved: the identifier stays free
    /// only until an entry is made for it.
    pub fn generate_unique_id(&self) -> (id: AxumSessionID)
        ensures
            !self@.contains_key(id.0),
    {
        let mut draws: u64 = 1;
        loop
            invariant
                1 <= draws <= DRAW_LIMIT,
            decreases DRAW_LIMIT - draws,
        {
            match self.settle(AxumSessionID(random_uuid()), draws) {
                Some(id) => {
                    return id;
                },
                None => {
                    draws = draws + 1;
                },
            }
        }
    }
}

} // verus!
