//! Model of the remote authentication backend's interface.
//!
//! The backend owns credential verification and session issuance; this core
//! only consumes its answer. The transport call itself happens outside the
//! library, which receives the outcome as a plain value: either a transport
//! failure, or the backend's own verdict on the credentials.

use vstd::prelude::*;

verus! {

/// A backend session record as this core reads it: the backend-generated
/// opaque session identifier and the authenticated user's stable id.
pub struct Session {
    pub session_id: Vec<u8>,
    pub user_id: u64,
}

/// A failure the backend itself reports. `NotLoggedIn` is the variant the
/// logout path surfaces when no local identity exists.
pub enum AuthError {
    InvalidCredentials,
    AccountLocked,
    NotLoggedIn,
}

/// A transport or protocol-level failure reaching the backend: propagated to
/// the client untouched, never interpreted as a credential verdict.
pub struct TransportError {
    pub message: String,
}

} // verus!
