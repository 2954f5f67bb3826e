//! The handle of one session: an identifier, and the operations that reach
//! that session's entry in a table.

use crate::data::AxumSessionData;
use crate::data::SessionState;
use crate::id::uuid_parse;
use crate::id::AxumSessionID;
use crate::jar::cookie_value;
use crate::jar::jar_cookies;
use crate::store::opened;
use crate::store::AxumSessionStore;
use cookie::CookieJar;
use vstd::prelude::*;

verus! {

/// Makes `serde_json::Error` known as a type whose inside is not looked at.
#[verifier::external_type_specification]
#[verifier::external_body]
pub struct ExJsonError(serde_json::Error);

/// The table with `next` as the payload of session `id`, where the table has
/// an entry for `id`; the table as it is, where it has none.
pub open spec fn on_entry(table: Map<u128, SessionState>, id: u128, next: SessionState) -> Map<
    u128,
    SessionState,
> {
    if table.contains_key(id) {
        table.insert(id, next)
    } else {
        table
    }
}

/// The identifier that a request presents: what the cookie called `name`
/// holds, where the jar has such a cookie and its value reads as a UUID.
pub open spec fn presented(name: Seq<char>, cookies: Map<Seq<char>, Seq<char>>) -> Option<
    AxumSessionID,
> {
    if cookies.contains_key(name) {
        AxumSessionID::parsed(uuid_parse(cookies[name]))
    } else {
        None
    }
}

/// The text stored under `key` in session `id`, if the table has that session
/// and the session has that key.
pub open spec fn stored(table: Map<u128, SessionState>, id: u128, key: Seq<char>) -> Option<
    Seq<char>,
> {
    if table.contains_key(id) {
        table[id].get(key)
    } else {
        None
    }
}

/// The text that is stored for the outcome of serializing a value: the
/// serialized form, or the empty text where serializing failed.
pub open spec fn text_to_store(serialized: Result<String, serde_json::Error>) -> Seq<char> {
    match serialized {
        Ok(text) => text@,
        Err(_) => Seq::<char>::empty(),
    }
}

/// What a read returns for the outcome of deserializing the stored text: the
/// value, or `None` where deserializing failed.
pub open spec fn value_read<T>(deserialized: Result<T, serde_json::Error>) -> Option<T> {
    match deserialized {
        Ok(value) => Some(value),
        Err(_) => None,
    }
}

/// The number of sessions to report: with a durable backend its reply, or 0
/// where it failed or was not asked; without one, the number resident in
/// memory.
pub open spec fn counted<E>(
    resident: nat,
    persistent: bool,
    backend: Option<Result<i64, E>>,
) -> i64 {
    if persistent {
        match backend {
            Some(Ok(count)) => count,
            _ => 0,
        }
    } else {
        resident as i64
    }
}

/// What clearing a session comes to: the failure of the durable backend,
/// where there is such a backend and it failed; success otherwise.
pub open spec fn clearing<E>(durable: bool, reply: Option<Result<(), E>>) -> Result<(), E> {
    match (durable, reply) {
        (true, Some(Err(failure))) => Err(failure),
        _ => Ok(()),
    }
}

/// The status with which a request is refused that carries no session handle.
pub const MISSING_HANDLE_STATUS: u16 = 500;

/// A capability for one session: it names the session, and each operation
/// takes the table that the session lives in.
///
/// Handles are values: any number of them may name the same session.
#[derive(Clone, Copy, Debug)]
pub struct AxumSession {
    pub id: AxumSessionID,
}

impl AxumSession {
    /// Takes the handle that a request carries, or refuses the request.
    ///
    /// A request without a handle is a fault of the server's setup: the
    /// refusal is status 500 with a fixed message that names the missing
    /// layer.
    pub fn from_request(extension: Option<&AxumSession>) -> (outcome: Result<
        AxumSession,
        (u16, &'static str),
    >)
        ensures
            match extension {
                Some(session) => outcome == Ok::<AxumSession, (u16, &'static str)>(*session),
                None => outcome matches Err((status, message)) && status == 500 && message@
                    == "Can't extract AxumSession. Is `AxumSessionLayer` enabled?"@,
            },
    {
        match extension {
            Some(session) => Ok(*session),
            None => Err(
                (
                    MISSING_HANDLE_STATUS,
                    "Can't extract AxumSession. Is `AxumSessionLayer` enabled?",
                ),
            ),
        }
    }

    /// The handle for a request with the cookies `cookies`.
    ///
    /// Where the session cookie holds a well-formed identifier, the handle
    /// names that session, whether or not the table knows it. Otherwise it
    /// names a session under an identifier that the table does not hold.
    ///
    /// The table is only read: the session gets its entry from
    /// [`AxumSessionStore::get_or_create`]. Until it has one, reads through
    /// the handle find nothing and writes through it do nothing, and a second
    /// handle made meanwhile is kept apart from this one by the random draw
    /// alone.
    pub fn new(store: &AxumSessionStore, cookies: &CookieJar) -> (session: AxumSession)
        ensures
            match presented(store.cookie(), jar_cookies(cookies)) {
                Some(id) => session.id == id,
                None => !store@.contains_key(session.id.0),
            },
    {
        let candidate = match cookie_value(cookies, store.cookie_name()) {
            Some(text) => AxumSessionID::parse(text.as_str()),
            None => None,
        };
        Self::resolve(store, candidate)
    }

    /// The handle for a request that presented `candidate`.
    ///
    /// `Some(id)` is trusted: the handle names session `id`, whether or not
    /// the table knows it. With `None` the handle names a session under an
    /// identifier that the table does not hold. The table is only read.
    pub fn resolve(
        store: &AxumSessionStore,
        candidate: Option<AxumSessionID>,
    ) -> (session: AxumSession)
        ensures
            match candidate {
                Some(id) => session.id == id,
                None => !store@.contains_key(session.id.0),
            },
    {
        let id = match candidate {
            Some(id) => id,
            None => store.generate_unique_id(),
        };
        AxumSession { id }
    }

    /// The handle for a request that presented `candidate`, with the
    /// session's entry made in the same step.
    ///
    /// The handle is the one that [`AxumSession::resolve`] gives. The table
    /// has an entry for the session afterwards: the one it had, or an empty
    /// one. As nothing comes between the choice of a new identifier and its
    /// entry, identifiers issued this way one after another are all
    /// different.
    pub fn resume_or_create(
        store: &mut AxumSessionStore,
        candidate: Option<AxumSessionID>,
    ) -> (session: AxumSession)
        ensures
            match candidate {
                Some(id) => session.id == id,
                None => !old(store)@.contains_key(session.id.0),
            },
            final(store)@ == opened(old(store)@, session.id.0),
            final(store).same_settings(old(store)),
    {
        let session = Self::resolve(store, candidate);
        let _ = store.get_or_create(session.id);
        session
    }

    /// Runs `func` on the payload of this session and returns what it
    /// returns.
    ///
    /// Where the table has no entry for the session, `func` is not run, the
    /// table is left alone and the result is `None`. Otherwise `func` gets the
    /// session's payload, and the payload it leaves is what the table holds
    /// for the session afterwards. No other session changes.
    pub fn tap<T, F: FnOnce(&mut AxumSessionData) -> Option<T>>(
        &self,
        store: &mut AxumSessionStore,
        func: F,
    ) -> (result: Option<T>)
        requires
            old(store)@.contains_key(self.id.0) ==> forall|entry: &mut AxumSessionData|
                (*entry)@ == old(store)@[self.id.0] ==> call_requires(func, (entry,)),
        ensures
            final(store).same_settings(old(store)),
            !old(store)@.contains_key(self.id.0) ==> result is None && final(store)@ == old(
                store,
            )@,
            old(store)@.contains_key(self.id.0) ==> (exists|entry: &mut AxumSessionData|
                (*entry)@ == old(store)@[self.id.0] && final(store)@ == old(store)@.insert(
                    self.id.0,
                    (*final(entry))@,
                ) && #[trigger] call_ensures(func, (entry,), result)),
    {
        match store.get_mut(self.id) {
            Some(entry) => func(entry),
            None => None,
        }
    }

    /// Marks the session for deletion on the next lifecycle sweep.
    ///
    /// The entry stays in the table. Nothing happens where the table has no
    /// entry for the session.
    pub fn destroy(&self, store: &mut AxumSessionStore)
        ensures
            final(store)@ == on_entry(
                old(store)@,
                self.id.0,
                old(store)@[self.id.0].with_destroy(),
            ),
            final(store).same_settings(old(store)),
    {
        let _ = self.tap(
            store,
            |sess: &mut AxumSessionData| -> (done: Option<u8>)
                ensures
                    final(sess)@ == old(sess)@.with_destroy()
                {
                    sess.destroy = true;
                    Some(1u8)
                },
        );
    }

    /// Selects the long-lived (`true`) or the short-lived expiry policy for
    /// the session.
    ///
    /// Nothing happens where the table has no entry for the session.
    pub fn set_longterm(&self, store: &mut AxumSessionStore, longterm: bool)
        ensures
            final(store)@ == on_entry(
                old(store)@,
                self.id.0,
                old(store)@[self.id.0].with_longterm(longterm),
            ),
            final(store).same_settings(old(store)),
    {
        let _ = self.tap(
            store,
            |sess: &mut AxumSessionData| -> (done: Option<u8>)
                ensures
                    final(sess)@ == old(sess)@.with_longterm(longterm)
                {
                    sess.longterm = longterm;
                    Some(1u8)
                },
        );
    }

    /// Records whether the owner of the session has consented to its
    /// persistence.
    ///
    /// Nothing happens where the table has no entry for the session.
    pub fn set_accepted(&self, store: &mut AxumSessionStore, accepted: bool)
        ensures
            final(store)@ == on_entry(
                old(store)@,
                self.id.0,
                old(store)@[self.id.0].with_accepted(accepted),
            ),
            final(store).same_settings(old(store)),
    {
        let _ = self.tap(
            store,
            |sess: &mut AxumSessionData| -> (done: Option<u8>)
                ensures
                    final(sess)@ == old(sess)@.with_accepted(accepted)
                {
                    sess.accepted = accepted;
                    Some(1u8)
                },
        );
    }

    /// Reads the value stored under `key`: `decode` turns the stored text
    /// into the value.
    ///
    /// The result is `None` where the table has no entry for the session,
    /// where the session has no such key, and where `decode` fails on the
    /// stored text: a failure there is not reported. The table is only read.
    pub fn get<T, F: FnOnce(&str) -> Result<T, serde_json::Error>>(
        &self,
        store: &AxumSessionStore,
        key: &str,
        decode: F,
    ) -> (value: Option<T>)
        requires
            forall|text: &str|
                stored(store@, self.id.0, key@) == Some(text@) ==> call_requires(decode, (text,)),
        ensures
            match stored(store@, self.id.0, key@) {
                Some(held) => (exists|text: &str, deserialized: Result<T, serde_json::Error>|
                    text@ == held && #[trigger] call_ensures(decode, (text,), deserialized)
                        && value == value_read(deserialized)),
                None => value is None,
            },
    {
        let held = match store.get(self.id) {
            Some(entry) => entry.get(key),
            None => None,
        };
        match held {
            Some(text) => match decode(text.as_str()) {
                Ok(value) => Some(value),
                Err(_) => None,
            },
            None => None,
        }
    }

    /// Stores a value under `key`: `serialized` is the outcome of
    /// serializing it.
    ///
    /// Where serializing failed, the empty text is stored in place of the
    /// value: the failure is not reported. Nothing is written where the key
    /// already holds the same text, and nothing happens where the table has
    /// no entry for the session.
    pub fn set(
        &self,
        store: &mut AxumSessionStore,
        key: &str,
        serialized: Result<String, serde_json::Error>,
    )
        ensures
            final(store)@ == on_entry(
                old(store)@,
                self.id.0,
                old(store)@[self.id.0].set(key@, text_to_store(serialized)),
            ),
            final(store).same_settings(old(store)),
    {
        let text = match serialized {
            Ok(text) => text,
            Err(_) => String::new(),
        };
        let _ = self.tap(
            store,
            |sess: &mut AxumSessionData| -> (done: Option<u8>)
                ensures
                    final(sess)@ == old(sess)@.set(key@, text@)
                {
                    sess.set(key, text);
                    Some(1u8)
                },
        );
    }

    /// Deletes `key` from the session, and says whether it was there.
    ///
    /// The result is `false` where the table has no entry for the session.
    pub fn remove(&self, store: &mut AxumSessionStore, key: &str) -> (existed: bool)
        ensures
            final(store)@ == on_entry(
                old(store)@,
                self.id.0,
                old(store)@[self.id.0].remove(key@),
            ),
            final(store).same_settings(old(store)),
            existed == (stored(old(store)@, self.id.0, key@) is Some),
    {
        let removed = self.tap(
            store,
            |sess: &mut AxumSessionData| -> (existed: Option<bool>)
                ensures
                    final(sess)@ == old(sess)@.remove(key@),
                    existed == Some(old(sess)@.data.contains_key(key@))
                {
                    Some(sess.remove(key))
                },
        );
        match removed {
            Some(existed) => existed,
            None => false,
        }
    }

    /// Drops every value of this session, and says whether the durable
    /// backend has to clear its table as well.
    ///
    /// The flags of the session stay as they are, and so does every other
    /// session in memory. The result is `true` exactly where a durable
    /// backend mirrors the table: the caller then has the backend clear the
    /// whole of its table, not this session's part of it, and hands the
    /// reply to [`AxumSession::cleared`].
    pub fn clear_all(&self, store: &mut AxumSessionStore) -> (durable: bool)
        ensures
            final(store)@ == on_entry(old(store)@, self.id.0, old(store)@[self.id.0].clear()),
            final(store).same_settings(old(store)),
            durable == old(store).persistent(),
    {
        let _ = self.tap(
            store,
            |sess: &mut AxumSessionData| -> (done: Option<u8>)
                ensures
                    final(sess)@ == old(sess)@.clear()
                {
                    sess.clear();
                    Some(1u8)
                },
        );
        store.is_persistent()
    }

    /// The outcome of [`AxumSession::clear_all`], once the durable backend
    /// has replied.
    ///
    /// `durable` is what `clear_all` returned, and `reply` what the backend
    /// answered to the request to clear its table, where it was asked. A
    /// failure of the backend is the caller's error, as it stands. Without a
    /// durable backend there is nothing to fail.
    pub fn cleared<E>(durable: bool, reply: Option<Result<(), E>>) -> (outcome: Result<(), E>)
        ensures
            outcome == clearing(durable, reply),
    {
        if durable {
            match reply {
                Some(Err(failure)) => Err(failure),
                _ => Ok(()),
            }
        } else {
            Ok(())
        }
    }

    /// The number of sessions that exist.
    ///
    /// `backend` is the reply of the durable backend to a request for its
    /// count, where it was asked. With a durable backend the result is that
    /// count, and 0 where the backend failed or was not asked. Without one
    /// the reply is ignored and the result is the number of sessions resident
    /// in memory.
    pub fn count<E>(
        &self,
        store: &AxumSessionStore,
        backend: Option<Result<i64, E>>,
    ) -> (count: i64)
        ensures
            count == counted(store@.len(), store.persistent(), backend),
    {
        if store.is_persistent() {
            match backend {
                Some(Ok(count)) => count,
                _ => 0,
            }
        } else {
            store.len() as i64
        }
    }
}

} // verus!
