use vstd::prelude::*;
use std::collections::HashMap;
use crate::crypto::{derive_session_key, hkdf_sha256_okm32, session_key_info, zeroize_key};

verus! {

broadcast use vstd::std_specs::hash::group_hash_axioms;

/// `uuid::Uuid::new_v4()` read as a big-endian `u128` (`Uuid::as_u128`): a
/// random identifier whose version nibble is 4 and whose variant bits are
/// `10`, as the crate's source forces them.
#[verifier::external_body]
fn new_v4_id() -> (id: u128)
    ensures
        id & 0xF000C000000000000000u128 == 0x40008000000000000000u128,
{
    uuid::Uuid::new_v4().as_u128()
}

/// An established session: its identifier (a version-4 UUID as a `u128`)
/// and its 32-byte key, wiped when the session is dropped.
pub struct Session {
    pub id: u128,
    pub session_key: [u8; 32],
}

impl Drop for Session {
    /// Wipes the session key.
    fn drop(&mut self)
        ensures
            final(self).session_key@ == Seq::new(32, |i: int| 0u8),
        opens_invariants none
        no_unwind
    {
        zeroize_key(&mut self.session_key);
    }
}

/// The sessions of a daemon, by identifier.
pub struct SessionManager {
    sessions: HashMap<u128, Session>,
}

impl View for SessionManager {
    type V = Map<u128, Session>;

    closed spec fn view(&self) -> Map<u128, Session> {
        self.sessions@
    }
}

impl Default for SessionManager {
    fn default() -> (m: Self)
        ensures
            m@ == Map::<u128, Session>::empty(),
    {
        SessionManager::new()
    }
}

impl SessionManager {
    pub fn new() -> (m: Self)
        ensures
            m@ == Map::<u128, Session>::empty(),
    {
        SessionManager { sessions: HashMap::new() }
    }

    /// Creates a session under a fresh random identifier, with the key
    /// derived from `shared_secret` and `salt`, and returns the identifier.
    /// Every other session is left as it was.
    pub fn create_session(&mut self, shared_secret: &[u8], salt: &[u8]) -> (id: u128)
        ensures
            final(self)@.contains_key(id),
            final(self)@[id].id == id,
            final(self)@[id].session_key@ == hkdf_sha256_okm32(Some(salt@), shared_secret@, session_key_info()),
            final(self)@.remove(id) == old(self)@.remove(id),
    {
        let id = new_v4_id();
        let session_key = derive_session_key(shared_secret, Some(salt));
        let session = Session { id, session_key };
        let _ = self.sessions.insert(id, session);
        id
    }

    /// The session with identifier `id`, if there is one.
    pub fn get_session(&self, id: &u128) -> (r: Option<&Session>)
        ensures
            match r {
                Some(s) => self@.contains_key(*id) && *s == self@[*id],
                None => !self@.contains_key(*id),
            },
    {
        self.sessions.get(id)
    }

    /// Ends the session with identifier `id` (if any); others are kept.
    pub fn terminate_session(&mut self, id: &u128)
        ensures
            final(self)@ == old(self)@.remove(*id),
    {
        let _ = self.sessions.remove(id);
    }
}

/// Creating a session leaves every other session as it was: a session
/// stored under another identifier before the call is still stored, with
/// the same key, after it.
pub proof fn law_create_keeps_other_sessions(
    before: Map<u128, Session>,
    after: Map<u128, Session>,
    id: u128,
    other: u128,
)
    requires
        after.contains_key(id),
        after.remove(id) == before.remove(id),
        other != id,
    ensures
        after.contains_key(other) == before.contains_key(other),
        before.contains_key(other) ==> after[other] == before[other],
{
    assert(before.remove(id).contains_key(other) == before.contains_key(other));
    assert(after.remove(id).contains_key(other) == after.contains_key(other));
    if before.contains_key(other) {
        assert(before.remove(id)[other] == before[other]);
        assert(after.remove(id)[other] == after[other]);
    }
}

/// A terminated session can no longer be found, and terminating it leaves
/// every other session as it was.
pub proof fn law_terminate_forgets_only_that_session(
    before: Map<u128, Session>,
    after: Map<u128, Session>,
    id: u128,
    other: u128,
)
    requires
        after == before.remove(id),
        other != id,
    ensures
        !after.contains_key(id),
        after.contains_key(other) == before.contains_key(other),
        before.contains_key(other) ==> after[other] == before[other],
{
}

} // verus!
