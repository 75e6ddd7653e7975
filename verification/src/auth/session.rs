//! Signed-in sessions, filed by their identifier.
use vstd::prelude::*;

use dashmap::DashMap;

use crate::protocol::frame::{is_v4_uuid, random_uuid_bytes};

verus! {

#[verifier::external_type_specification]
#[verifier::external_body]
#[verifier::reject_recursive_types(K)]
#[verifier::reject_recursive_types(V)]
#[verifier::reject_recursive_types(S)]
pub struct ExDashMap<K, V, S>(DashMap<K, V, S>);

/// One signed-in user. The identifier holds the 16 bytes of a UUID.
#[derive(Debug, Clone)]
pub struct Session {
    pub id: [u8; 16],
    pub username: String,
    pub uid: u32,
    pub gid: u32,
    pub created_at: u64,
}

impl View for Session {
    /// Identifier, user name, user id, group id, creation time.
    type V = (Seq<u8>, Seq<char>, u32, u32, u64);

    open spec fn view(&self) -> Self::V {
        (self.id@, self.username@, self.uid, self.gid, self.created_at)
    }
}

/// What a session store holds: each identifier with the session filed under it.
pub uninterp spec fn stored_sessions(store: DashMap<[u8; 16], Session>) -> Map<
    Seq<u8>,
    (Seq<u8>, Seq<char>, u32, u32, u64),
>;

/// `DashMap::new`: a store that holds nothing.
#[verifier::external_body]
fn empty_session_store() -> (store: DashMap<[u8; 16], Session>)
    ensures
        stored_sessions(store).dom() == Set::<Seq<u8>>::empty(),
{
    DashMap::new()
}

/// `DashMap::insert`: files `session` under `id`, in place of what was there.
#[verifier::external_body]
fn file_session(store: &mut DashMap<[u8; 16], Session>, id: [u8; 16], session: Session)
    ensures
        stored_sessions(*final(store)) == stored_sessions(*old(store)).insert(id@, session@),
{
    store.insert(id, session);
}

/// `DashMap::get`, with a copy of the session found under `id`.
#[verifier::external_body]
fn filed_session(store: &DashMap<[u8; 16], Session>, id: &[u8; 16]) -> (found: Option<Session>)
    ensures
        found is Some <==> stored_sessions(*store).contains_key(id@),
        found matches Some(s) ==> s@ == stored_sessions(*store)[id@],
{
    store.get(id).map(|entry| entry.value().clone())
}

/// `DashMap::remove`: drops what is filed under `id`.
#[verifier::external_body]
fn unfile_session(store: &mut DashMap<[u8; 16], Session>, id: &[u8; 16])
    ensures
        stored_sessions(*final(store)) == stored_sessions(*old(store)).remove(id@),
{
    store.remove(id);
}

#[verifier::external_type_specification]
#[verifier::external_body]
pub struct ExSystemTime(std::time::SystemTime);

/// `std::time::SystemTime::now`: the system clock's reading, which is not
/// stated.
#[verifier::external_body]
fn clock_now() -> (now: std::time::SystemTime)
{
    std::time::SystemTime::now()
}

/// `SystemTime::duration_since` the Unix epoch: how long after the epoch
/// `time` is, or `None` for a time before it. What comes back is not stated.
#[verifier::external_body]
fn since_unix_epoch(time: &std::time::SystemTime) -> (elapsed: Option<std::time::Duration>)
{
    time.duration_since(std::time::UNIX_EPOCH).ok()
}

/// `Duration::as_secs`: the whole seconds of a duration, which is not stated.
#[verifier::external_body]
fn whole_seconds(duration: &std::time::Duration) -> (secs: u64)
{
    duration.as_secs()
}

/// The session filed under `id` in a store, if any.
pub open spec fn session_under(
    sessions: Map<Seq<u8>, (Seq<u8>, Seq<char>, u32, u32, u64)>,
    id: Seq<u8>,
) -> Option<(Seq<u8>, Seq<char>, u32, u32, u64)> {
    if sessions.contains_key(id) {
        Some(sessions[id])
    } else {
        None
    }
}

/// The sessions of the signed-in users.
pub struct SessionManager {
    sessions: DashMap<[u8; 16], Session>,
}

impl View for SessionManager {
    type V = Map<Seq<u8>, (Seq<u8>, Seq<char>, u32, u32, u64)>;

    closed spec fn view(&self) -> Self::V {
        stored_sessions(self.sessions)
    }
}

impl SessionManager {
    pub fn new() -> (m: Self)
        ensures
            m@.dom() == Set::<Seq<u8>>::empty(),
    {
        SessionManager { sessions: empty_session_store() }
    }

    /// Opens a session for a user under a fresh random identifier and files it.
    /// The creation time is the clock's reading in seconds, 0 for a clock set
    /// before the epoch.
    pub fn create_session(&mut self, username: String, uid: u32, gid: u32) -> (s: Session)
        ensures
            is_v4_uuid(s.id@),
            s.username@ == username@,
            s.uid == uid,
            s.gid == gid,
            final(self)@ == old(self)@.insert(s.id@, s@),
    {
        let id = random_uuid_bytes();
        let now = clock_now();
        let created_at: u64 = match since_unix_epoch(&now) {
            Some(elapsed) => whole_seconds(&elapsed),
            None => 0,
        };
        let filed = Session { id, username: username.clone(), uid, gid, created_at };
        let session = Session { id, username, uid, gid, created_at };
        file_session(&mut self.sessions, id, filed);
        session
    }

    /// The session filed under `id`, if any.
    pub fn get_session(&self, id: &[u8; 16]) -> (found: Option<Session>)
        ensures
            found matches Some(s) ==> session_under(self@, id@) == Some(s@),
            found is None ==> session_under(self@, id@) is None,
    {
        filed_session(&self.sessions, id)
    }

    /// Ends the session filed under `id`; the others stay.
    pub fn remove_session(&mut self, id: &[u8; 16])
        ensures
            final(self)@ == old(self)@.remove(id@),
    {
        unfile_session(&mut self.sessions, id);
    }
}

impl Default for SessionManager {
    fn default() -> (m: Self)
        ensures
            m@.dom() == Set::<Seq<u8>>::empty(),
    {
        SessionManager::new()
    }
}

/// A session just opened is found under its identifier, with what it was opened
/// with; the sessions under other identifiers are as they were.
pub proof fn lemma_created_session_is_found(
    before: Map<Seq<u8>, (Seq<u8>, Seq<char>, u32, u32, u64)>,
    created: (Seq<u8>, Seq<char>, u32, u32, u64),
    other: Seq<u8>,
)
    ensures
        session_under(before.insert(created.0, created), created.0) == Some(created),
        other != created.0 ==> session_under(before.insert(created.0, created), other)
            == session_under(before, other),
{
}

/// After a session is ended, nothing is found under its identifier, and the
/// sessions under other identifiers are as they were.
pub proof fn lemma_removed_session_is_gone(
    before: Map<Seq<u8>, (Seq<u8>, Seq<char>, u32, u32, u64)>,
    id: Seq<u8>,
    other: Seq<u8>,
)
    ensures
        session_under(before.remove(id), id) is None,
        other != id ==> session_under(before.remove(id), other) == session_under(before, other),
{
}

} // verus!
