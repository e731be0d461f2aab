//! Session-establishment core of a web-facing authentication boundary.
//!
//! The library owns the logic that turns a backend-approved login into a
//! client-held session token and later tears it down: the token codec, the
//! identity-store model, and the login/logout decision functions. The HTTP
//! framing and the remote backend call live outside the library and hand it
//! plain values.

pub mod auth;
pub mod backend;
pub mod codec;
pub mod store;
