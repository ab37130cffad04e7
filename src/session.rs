//! The session guard: server-side sessions keyed by an opaque handle that
//! the client presents, each holding the identity that logged in on it.
use vstd::prelude::*;
use std::collections::HashMap;
use crate::authentication::UserId;

verus! {

broadcast use vstd::std_specs::hash::group_hash_axioms;

/// The opaque token a client presents to name its session.
#[derive(Debug, Clone, Copy, PartialEq, Eq, Structural, Hash)]
pub struct SessionHandle(pub u128);

/// The session holds no authenticated identity.
#[derive(Debug, Clone, Copy, PartialEq, Eq, Structural)]
pub struct Rejected;

/// The handle drawn for a rotated session is already in use.
#[derive(Debug, Clone, Copy, PartialEq, Eq, Structural)]
pub struct HandleInUse;

/// Relies on uuid's `Uuid::new_v4`, whose bits come from the operating
/// system's random generator: nothing is known of the value drawn.
#[verifier::external_body]
pub(crate) fn random_token() -> (r: u128) {
    uuid::Uuid::new_v4().as_u128()
}

/// `m` without the session `presented`, if there is one.
pub open spec fn without_session(m: Map<u128, UserId>, presented: Option<SessionHandle>) -> Map<u128, UserId> {
    match presented {
        Some(h) => m.remove(h.0),
        None => m,
    }
}

/// The identity that session `h` holds in `m`, if any.
pub open spec fn identity_of(m: Map<u128, UserId>, h: SessionHandle) -> Option<UserId> {
    if m.contains_key(h.0) {
        Some(m[h.0])
    } else {
        None
    }
}

pub struct SessionStore {
    identities: HashMap<u128, UserId>,
}

impl View for SessionStore {
    /// handle => identity of the authenticated sessions
    type V = Map<u128, UserId>;

    closed spec fn view(&self) -> Map<u128, UserId> {
        self.identities@
    }
}

impl SessionStore {
    pub fn new() -> (r: SessionStore)
        ensures
            r@ == Map::<u128, UserId>::empty(),
    {
        SessionStore { identities: HashMap::new() }
    }

    /// The identity stored in session `handle`; `None` when anonymous.
    pub fn current_identity(&self, handle: SessionHandle) -> (r: Option<UserId>)
        ensures
            r == identity_of(self@, handle),
    {
        match self.identities.get(&handle.0) {
            Some(id) => Some(*id),
            None => None,
        }
    }

    /// The identity stored in session `handle`, or `Rejected` when there is
    /// none.
    pub fn require_identity(&self, handle: SessionHandle) -> (r: Result<UserId, Rejected>)
        ensures
            r == match identity_of(self@, handle) {
                Some(id) => Ok::<UserId, Rejected>(id),
                None => Err(Rejected),
            },
    {
        match self.current_identity(handle) {
            Some(id) => Ok(id),
            None => Err(Rejected),
        }
    }

    /// Logs `user_id` in under the new handle `fresh`: the session
    /// `presented` by the client, if any, is dropped first, so a handle known
    /// before the login never carries the identity. Refused, with nothing
    /// changed, when `fresh` is `presented` or names a live session.
    pub fn establish_with(&mut self, presented: Option<SessionHandle>, fresh: SessionHandle, user_id: UserId) -> (r:
        Result<(), HandleInUse>)
        ensures
            r is Err <==> presented == Some(fresh) || old(self)@.contains_key(fresh.0),
            r is Ok ==> final(self)@ == without_session(old(self)@, presented).insert(fresh.0, user_id),
            r is Err ==> final(self)@ == old(self)@,
    {
        if self.identities.contains_key(&fresh.0) {
            return Err(HandleInUse);
        }
        match presented {
            Some(h) => {
                if h.0 == fresh.0 {
                    return Err(HandleInUse);
                }
                self.identities.remove(&h.0);
            },
            None => {},
        }
        self.identities.insert(fresh.0, user_id);
        Ok(())
    }

    /// Logs `user_id` in under a newly drawn random handle, which it
    /// returns, dropping the session `presented` by the client, if any.
    /// Refused, with nothing changed, when the drawn handle is already in use
    /// or is the presented one, which cannot happen when no handle was
    /// presented and no session is live.
    pub fn establish(&mut self, presented: Option<SessionHandle>, user_id: UserId) -> (r: Result<
        SessionHandle,
        HandleInUse,
    >)
        ensures
            r matches Ok(fresh) ==> {
                &&& presented != Some(fresh)
                &&& !old(self)@.contains_key(fresh.0)
                &&& final(self)@ == without_session(old(self)@, presented).insert(fresh.0, user_id)
            },
            r is Err ==> final(self)@ == old(self)@,
            r is Err ==> presented is Some || old(self)@.dom() != Set::<u128>::empty(),
    {
        let fresh = SessionHandle(random_token());
        match self.establish_with(presented, fresh, user_id) {
            Ok(()) => Ok(fresh),
            Err(e) => Err(e),
        }
    }

    /// Ends session `handle`: it never resolves to an identity again.
    pub fn terminate(&mut self, handle: SessionHandle)
        ensures
            final(self)@ == old(self)@.remove(handle.0),
    {
        self.identities.remove(&handle.0);
    }
}

} // verus!
