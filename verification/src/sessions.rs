//! Server-side sessions: configuration, session data, and an in-memory store
//! keyed by session id.
use vstd::prelude::*;
use std::collections::HashMap;
use crate::store::Store;
use crate::text::{nat_hex_str, push_hex_u128};
use crate::clock::now_timestamp;

verus! {

#[verifier::external_type_specification]
#[verifier::external_body]
pub struct ExSystemTimeError(std::time::SystemTimeError);

/// Nanoseconds since the UNIX epoch on the system clock, through
/// `SystemTime::now().duration_since(UNIX_EPOCH)`; an error where the clock is
/// set before the epoch. Nothing is claimed of the value.
#[verifier::external_body]
fn unix_nanos() -> Result<u128, std::time::SystemTimeError> {
    std::time::SystemTime::now().duration_since(std::time::UNIX_EPOCH).map(|d| d.as_nanos())
}

/// Session configuration
#[derive(Debug, Clone)]
pub struct SessionConfig {
    pub cookie_name: String,
    pub expire_seconds: i64,
    pub secure: bool,
    pub http_only: bool,
    pub path: String,
}

impl Default for SessionConfig {
    /// Cookie `session_id`, one hour, secure, HTTP only, path `/`.
    fn default() -> (r: Self)
        ensures
            r.cookie_name@ == "session_id"@,
            r.expire_seconds == 3600,
            r.secure,
            r.http_only,
            r.path@ == "/"@,
    {
        SessionConfig {
            cookie_name: String::from_str("session_id"),
            expire_seconds: 3600,
            secure: true,
            http_only: true,
            path: String::from_str("/"),
        }
    }
}

impl SessionConfig {
    pub fn new() -> (r: Self)
        ensures
            r.cookie_name@ == "session_id"@,
            r.expire_seconds == 3600,
            r.secure,
            r.http_only,
            r.path@ == "/"@,
    {
        Self::default()
    }
}

/// Session data
#[derive(Debug)]
pub struct SessionData {
    pub user_id: String,
    pub email: Option<String>,
    pub created_at: i64,
    pub last_accessed: i64,
    pub data: HashMap<String, String>,
}

/// What a session holds: user, e-mail, creation and last access times, data.
pub type SessionView = (Seq<char>, Option<Seq<char>>, i64, i64, Map<String, String>);

impl View for SessionData {
    type V = SessionView;

    open spec fn view(&self) -> SessionView {
        (
            self.user_id@,
            match self.email { Some(e) => Some(e@), None => None },
            self.created_at,
            self.last_accessed,
            self.data@,
        )
    }
}

impl SessionData {
    /// A session of `user_id` created and last accessed at `now`, without e-mail or data.
    pub fn new_at(user_id: &str, now: i64) -> (r: Self)
        ensures
            r@ == (user_id@, None::<Seq<char>>, now, now, Map::<String, String>::empty()),
    {
        SessionData {
            user_id: user_id.to_owned(),
            email: None,
            created_at: now,
            last_accessed: now,
            data: HashMap::new(),
        }
    }

    /// A session of `user_id` created now.
    pub fn new(user_id: &str) -> (r: Self)
        ensures
            r@.0 == user_id@,
            r@.1 is None,
            r@.2 == r@.3,
            r@.4 == Map::<String, String>::empty(),
    {
        let now = now_timestamp();
        Self::new_at(user_id, now)
    }

    /// A copy of the session.
    pub fn duplicate(&self) -> (r: Self)
        ensures
            r@ == self@,
    {
        SessionData {
            user_id: self.user_id.clone(),
            email: match &self.email { Some(e) => Some(e.clone()), None => None },
            created_at: self.created_at,
            last_accessed: self.last_accessed,
            data: self.data.clone(),
        }
    }
}

/// Session store
pub struct SessionStore {
    sessions: Store<SessionData>,
}

impl View for SessionStore {
    /// The session of each session id.
    type V = Map<Seq<char>, SessionView>;

    closed spec fn view(&self) -> Map<Seq<char>, SessionView> {
        self.sessions@.map_values(|d: SessionData| d@)
    }
}

impl SessionStore {
    /// An empty store.
    pub fn new(_config: SessionConfig) -> (r: Self)
        ensures
            r@ == Map::<Seq<char>, SessionView>::empty(),
    {
        let r = SessionStore { sessions: Store::new() };
        assert(r@ =~= Map::<Seq<char>, SessionView>::empty());
        r
    }

    /// Stores a new session of `user_id` created at `now` under the id that is
    /// the lower-case hexadecimal of `id_nanos`, replacing any session there.
    pub fn create_at(&mut self, user_id: &str, id_nanos: u128, now: i64) -> (r: (String, SessionData))
        ensures
            r.0@ == nat_hex_str(id_nanos as nat),
            r.1@ == (user_id@, None::<Seq<char>>, now, now, Map::<String, String>::empty()),
            final(self)@ == old(self)@.insert(r.0@, r.1@),
    {
        let mut id = String::new();
        push_hex_u128(&mut id, id_nanos);
        assert(id@ =~= nat_hex_str(id_nanos as nat));
        let session = SessionData::new_at(user_id, now);
        let copy = session.duplicate();
        let ghost sv = session@;
        self.sessions.insert(id.clone(), session);
        assert(self@ =~= old(self)@.insert(id@, sv));
        (id, copy)
    }

    /// Stores a new session of `user_id`; its id is the hexadecimal of the
    /// present time in nanoseconds since the UNIX epoch. With a system clock
    /// set before the epoch there is no such id: nothing is stored and the
    /// result is `None`.
    pub fn create(&mut self, user_id: &str) -> (r: Option<(String, SessionData)>)
        ensures
            r is None ==> final(self)@ == old(self)@,
            r matches Some(c) ==> {
                &&& exists|nanos: u128| c.0@ == nat_hex_str(nanos as nat)
                &&& c.1@.0 == user_id@
                &&& c.1@.1 is None
                &&& c.1@.2 == c.1@.3
                &&& c.1@.4 == Map::<String, String>::empty()
                &&& final(self)@ == old(self)@.insert(c.0@, c.1@)
            },
    {
        match unix_nanos() {
            Ok(nanos) => {
                let now = now_timestamp();
                Some(self.create_at(user_id, nanos, now))
            },
            Err(_) => None,
        }
    }

    /// The session with id `id`, if any.
    pub fn get(&self, id: &str) -> (r: Option<SessionData>)
        ensures
            r is Some <==> self@.contains_key(id@),
            r matches Some(d) ==> d@ == self@[id@],
    {
        match self.sessions.get(id) {
            Some(d) => Some(d.duplicate()),
            None => None,
        }
    }

    /// Deletes the session with id `id`; tells whether there was one.
    pub fn delete(&mut self, id: &str) -> (r: bool)
        ensures
            r == old(self)@.contains_key(id@),
            final(self)@ == old(self)@.remove(id@),
    {
        let removed = self.sessions.remove(id);
        assert(self@ =~= old(self)@.remove(id@));
        removed.is_some()
    }
}

/// A session read back by its id is the session last stored there; other ids
/// are unaffected.
pub proof fn get_after_create(store: Map<Seq<char>, SessionView>, id: Seq<char>, session: SessionView, other: Seq<char>)
    requires
        other != id,
    ensures
        store.insert(id, session).contains_key(id),
        store.insert(id, session)[id] == session,
        store.insert(id, session).contains_key(other) == store.contains_key(other),
        store.contains_key(other) ==> store.insert(id, session)[other] == store[other],
{
}

/// After a session is deleted, reading it gives nothing, and deleting it again
/// reports that there was none.
pub proof fn get_after_delete(store: Map<Seq<char>, SessionView>, id: Seq<char>)
    ensures
        !store.remove(id).contains_key(id),
{
}

} // verus!
