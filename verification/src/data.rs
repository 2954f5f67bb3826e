//! The payload of one session: serialized values by key, and three lifecycle flags.

use vstd::hash_map::StringHashMap;
use vstd::prelude::*;

verus! {

/// The mathematical value of a session's payload.
///
/// `data` maps each key to the serialized text stored under it; the text is
/// opaque here, its encoding is the caller's concern.
#[verifier::ext_equal]
pub struct SessionState {
    pub data: Map<Seq<char>, Seq<char>>,
    pub destroy: bool,
    pub longterm: bool,
    pub accepted: bool,
}

impl SessionState {
    /// The payload of a session that has just been created: no values, no flag raised.
    pub open spec fn fresh() -> SessionState {
        SessionState {
            data: Map::<Seq<char>, Seq<char>>::empty(),
            destroy: false,
            longterm: false,
            accepted: false,
        }
    }

    /// The text stored under `key`, if any.
    pub open spec fn get(self, key: Seq<char>) -> Option<Seq<char>> {
        if self.data.contains_key(key) {
            Some(self.data[key])
        } else {
            None
        }
    }

    /// The payload with `text` stored under `key`.
    pub open spec fn set(self, key: Seq<char>, text: Seq<char>) -> SessionState {
        SessionState { data: self.data.insert(key, text), ..self }
    }

    /// The payload without `key`.
    pub open spec fn remove(self, key: Seq<char>) -> SessionState {
        SessionState { data: self.data.remove(key), ..self }
    }

    /// The payload marked for deletion.
    pub open spec fn with_destroy(self) -> SessionState {
        SessionState { destroy: true, ..self }
    }

    /// The payload with the expiry policy set: long-lived where `longterm`.
    pub open spec fn with_longterm(self, longterm: bool) -> SessionState {
        SessionState { longterm, ..self }
    }

    /// The payload with the owner's consent recorded.
    pub open spec fn with_accepted(self, accepted: bool) -> SessionState {
        SessionState { accepted, ..self }
    }

    /// The payload with every value dropped and the flags as they were.
    pub open spec fn clear(self) -> SessionState {
        SessionState { data: Map::<Seq<char>, Seq<char>>::empty(), ..self }
    }
}

/// The mutable payload of one session.
///
/// Every field is public: no value of this type is ill-formed.
pub struct AxumSessionData {
    /// The serialized text stored under each key.
    pub data: StringHashMap<String>,
    /// The session must be deleted on the next lifecycle sweep.
    pub destroy: bool,
    /// Selects the long-lived expiry policy.
    pub longterm: bool,
    /// The owner of the session has consented to its persistence.
    pub accepted: bool,
}

impl View for AxumSessionData {
    type V = SessionState;

    open spec fn view(&self) -> SessionState {
        SessionState {
            data: self.values(),
            destroy: self.destroy,
            longterm: self.longterm,
            accepted: self.accepted,
        }
    }
}

impl AxumSessionData {
    /// The serialized text held under each key.
    pub open spec fn values(&self) -> Map<Seq<char>, Seq<char>> {
        self.data@.map_values(|text: String| text@)
    }

    /// An empty payload with no flag raised.
    pub fn new() -> (fresh: AxumSessionData)
        ensures
            fresh@ == SessionState::fresh(),
    {
        let fresh = AxumSessionData {
            data: StringHashMap::new(),
            destroy: false,
            longterm: false,
            accepted: false,
        };
        assert(fresh.values() =~= Map::<Seq<char>, Seq<char>>::empty());
        fresh
    }

    /// The text stored under `key`, or `None` where the key is absent.
    pub fn get(&self, key: &str) -> (found: Option<&String>)
        ensures
            match found {
                Some(text) => self@.get(key@) == Some(text@),
                None => self@.get(key@) is None,
            },
    {
        self.data.get(key)
    }

    /// Stores `text` under `key`, and says whether anything was written.
    ///
    /// Nothing is written where `key` already holds exactly `text`.
    pub fn set(&mut self, key: &str, text: String) -> (written: bool)
        ensures
            final(self)@ == old(self)@.set(key@, text@),
            written == (old(self)@.get(key@) != Some(text@)),
    {
        let same = match self.data.get(key) {
            Some(held) => *held == text,
            None => false,
        };
        if same {
            assert(self.values() =~= old(self).values().insert(key@, text@));
            false
        } else {
            self.data.insert(key.to_owned(), text);
            assert(self.values() =~= old(self).values().insert(key@, text@));
            true
        }
    }

    /// Deletes `key`, and says whether it was there.
    pub fn remove(&mut self, key: &str) -> (existed: bool)
        ensures
            final(self)@ == old(self)@.remove(key@),
            existed == old(self)@.data.contains_key(key@),
    {
        let existed = self.data.contains_key(key);
        self.data.remove(key);
        assert(self.values() =~= old(self).values().remove(key@));
        existed
    }

    /// Drops every value. The flags stay as they are.
    pub fn clear(&mut self)
        ensures
            final(self)@ == old(self)@.clear(),
    {
        self.data.clear();
        assert(self.values() =~= Map::<Seq<char>, Seq<char>>::empty());
    }
}

} // verus!
