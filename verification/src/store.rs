//! Model of the identity store: the client-session persistence mechanism
//! that remembers, recalls, and forgets one opaque payload per client.
//!
//! The surrounding framework backs this with a signed session cookie; the
//! signing is the adapter's own concern and invisible here. The store holds
//! at most one identity: the encoded token payload together with the
//! identity claim shown back at logout.

use vstd::prelude::*;

verus! {

/// What the store holds while a client is authenticated.
pub struct StoredIdentity {
    pub payload: Vec<u8>,
    pub claim: String,
}

/// The per-client identity store. Its view is `None` while anonymous, and
/// `Some((payload, claim))` while authenticated.
pub struct IdentityStore {
    current: Option<StoredIdentity>,
}

impl View for IdentityStore {
    type V = Option<(Seq<u8>, Seq<char>)>;

    closed spec fn view(&self) -> Option<(Seq<u8>, Seq<char>)> {
        match self.current {
            Some(s) => Some((s.payload@, s.claim@)),
            None => None,
        }
    }
}

impl IdentityStore {
    /// A fresh store holds no identity.
    pub fn new() -> (r: IdentityStore)
        ensures
            r@ is None,
    {
        IdentityStore { current: None }
    }

    /// Binds the given payload and claim to the client, overwriting any
    /// prior identity.
    pub fn remember(&mut self, payload: Vec<u8>, claim: String)
        ensures
            final(self)@ == Some((payload@, claim@)),
    {
        self.current = Some(StoredIdentity { payload, claim });
    }

    /// The identity currently bound to the client, if any.
    pub fn recall(&self) -> (r: &Option<StoredIdentity>)
        ensures
            (*r) matches Some(s) ==> self@ == Some((s.payload@, s.claim@)),
            (*r) is None <==> self@ is None,
    {
        &self.current
    }

    /// Clears the client's identity; a no-op when none is held.
    pub fn forget(&mut self)
        ensures
            final(self)@ is None,
    {
        self.current = None;
    }

    /// Removes the current identity and hands it back, leaving the store
    /// anonymous.
    pub fn take_identity(&mut self) -> (r: Option<StoredIdentity>)
        ensures
            final(self)@ is None,
            r matches Some(s) ==> old(self)@ == Some((s.payload@, s.claim@)),
            r is None <==> old(self)@ is None,
    {
        self.current.take()
    }
}

} // verus!
