//! Login and logout: the decision core of the two authentication handlers.
//!
//! Each handler is the pure half of one HTTP endpoint. The surrounding
//! program extracts the request body and the caller's address, performs the
//! one backend call, and hands the outcome here as a plain value; the
//! functions below decide the response and every change to the identity
//! store, and are verified to do exactly what the protocol demands: a token
//! is stored if and only if the backend reported a successful login, and no
//! failure path ever touches the prior identity.

use vstd::prelude::*;

use crate::backend::AuthError;
use crate::backend::Session;
use crate::backend::TransportError;
use crate::codec::SessionToken;
use crate::codec::lemma_decode_of_encode;
use crate::codec::spec_decode;
use crate::codec::spec_encode;
use crate::codec::spec_token_fits;
use crate::store::IdentityStore;

verus! {

/// The body of a login request: both fields are forwarded to the backend
/// verbatim; nothing is validated locally. The password is never stored and
/// never appears in any response.
#[derive(Debug)]
pub struct LoginInput {
    pub username_or_email: String,
    pub password: String,
}

/// The success body of a login response.
#[derive(Debug)]
pub struct LoginOutput {
    pub logged_in: u64,
    pub success: bool,
}

/// The success body of a logout response.
#[derive(Debug)]
pub struct LogoutOutput {
    pub logged_out: String,
    pub success: bool,
}

/// The failure payload of a response, preserving the failure's class: a
/// transport fault, the backend's own verdict, or a local token-encoding
/// failure after an accepted login.
pub enum ApiError {
    Transport(TransportError),
    Backend(AuthError),
    TokenEncode,
}

/// A response body: one of the two success shapes, or a failure payload.
pub enum ResponseBody {
    Login(LoginOutput),
    Logout(LogoutOutput),
    Failure(ApiError),
}

/// An HTTP response as this core determines it: a status code and a body,
/// serialized at the boundary.
pub struct ApiResponse {
    pub status: u16,
    pub body: ResponseBody,
}

/// The identity store's contents after a login handled with the given
/// backend outcome: a freshly encoded token bound to the claimed name when
/// the backend accepted and the token fits the wire form, the prior
/// contents untouched otherwise.
pub open spec fn spec_login_store(
    outcome: Result<Result<Session, AuthError>, TransportError>,
    store: Option<(Seq<u8>, Seq<char>)>,
    claim: Seq<char>,
) -> Option<(Seq<u8>, Seq<char>)> {
    match outcome {
        Ok(Ok(s)) => if spec_token_fits(s.session_id@) {
            Some((spec_encode(s.session_id@, s.user_id), claim))
        } else {
            store
        },
        _ => store,
    }
}

/// Handles one login request whose backend call already completed with
/// `outcome`. On success the store remembers the encoded token under the
/// claimed name and the response reports the backend's user id; on any
/// failure the store is untouched and the failure's class is preserved.
pub fn api_login(
    input: LoginInput,
    outcome: Result<Result<Session, AuthError>, TransportError>,
    id: &mut IdentityStore,
) -> (r: ApiResponse)
    ensures
        final(id)@ == spec_login_store(outcome, old(id)@, input.username_or_email@),
        outcome matches Err(t) ==> (r.status == 500 && (r.body matches ResponseBody::Failure(e)
            && e matches ApiError::Transport(t2) && t2.message@ == t.message@)),
        outcome matches Ok(Err(a)) ==> (r.status == 401 && r.body == ResponseBody::Failure(
            ApiError::Backend(a),
        )),
        outcome matches Ok(Ok(s)) ==> (!spec_token_fits(s.session_id@) ==> (r.status == 500
            && r.body == ResponseBody::Failure(ApiError::TokenEncode))),
        outcome matches Ok(Ok(s)) ==> (spec_token_fits(s.session_id@) ==> (r.status == 200 && (
        r.body matches ResponseBody::Login(o) && o.logged_in == s.user_id && o.success == true))),
{
    match outcome {
        Err(t) => ApiResponse {
            status: 500,
            body: ResponseBody::Failure(ApiError::Transport(t)),
        },
        Ok(Err(a)) => ApiResponse { status: 401, body: ResponseBody::Failure(ApiError::Backend(a)) },
        Ok(Ok(session)) => {
            let token = SessionToken {
                session_id: session.session_id,
                user_id: session.user_id,
            };
            match token.encode() {
                Err(_) => ApiResponse {
                    status: 500,
                    body: ResponseBody::Failure(ApiError::TokenEncode),
                },
                Ok(payload) => {
                    id.remember(payload, input.username_or_email);
                    ApiResponse {
                        status: 200,
                        body: ResponseBody::Login(
                            LoginOutput { logged_in: token.user_id, success: true },
                        ),
                    }
                },
            }
        },
    }
}

/// Handles one logout request. With no identity present this is a no-op
/// failure: HTTP 401 with the backend error vocabulary's `NotLoggedIn`.
/// With an identity present the store is cleared unconditionally and the
/// response echoes the stored claim. The backend is never contacted: only
/// the local token is discarded.
pub fn api_logout(id: &mut IdentityStore) -> (r: ApiResponse)
    ensures
        final(id)@ is None,
        old(id)@ is None ==> (r.status == 401 && r.body == ResponseBody::Failure(
            ApiError::Backend(AuthError::NotLoggedIn),
        )),
        old(id)@ matches Some(p) ==> (r.status == 200 && (r.body matches ResponseBody::Logout(o)
            && o.logged_out@ == p.1 && o.success == true)),
{
    match id.take_identity() {
        Some(stored) => ApiResponse {
            status: 200,
            body: ResponseBody::Logout(LogoutOutput { logged_out: stored.claim, success: true }),
        },
        None => ApiResponse {
            status: 401,
            body: ResponseBody::Failure(ApiError::Backend(AuthError::NotLoggedIn)),
        },
    }
}

/// Law: after a login the backend accepted, with a session identifier that
/// fits the wire form, the store holds a payload that decodes to exactly the
/// backend session's identifier and user id, bound to the claimed name.
pub proof fn lemma_login_stores_backend_identity(
    session: Session,
    store: Option<(Seq<u8>, Seq<char>)>,
    claim: Seq<char>,
)
    requires
        spec_token_fits(session.session_id@),
    ensures
        spec_login_store(Ok(Ok(session)), store, claim) matches Some(p) && spec_decode(p.0)
            == Some((session.session_id@, session.user_id)) && p.1 == claim,
{
    lemma_decode_of_encode(session.session_id@, session.user_id);
}

/// Law: a login the backend did not accept — a transport fault or a
/// backend-reported failure — leaves the identity store exactly as it was.
pub proof fn lemma_failed_login_preserves_store(
    outcome: Result<Result<Session, AuthError>, TransportError>,
    store: Option<(Seq<u8>, Seq<char>)>,
    claim: Seq<char>,
)
    requires
        !(outcome matches Ok(Ok(_))),
    ensures
        spec_login_store(outcome, store, claim) == store,
{
}

} // verus!
