//! The authentication gateway.
//!
//! A request carries two session tokens. Both go to the authentication
//! service in one call; what the service answers decides the identity.
use vstd::prelude::*;
use vstd::string::*;
use crate::enums::{STATUS_OK, STATUS_UNAUTHORIZED};
use crate::models::{Claims, VerifyJWTResponse};

verus! {

/// The call that verifies a session.
#[derive(Debug, Clone, PartialEq, Eq)]
pub struct VerifyRequest {
    /// Where to post.
    pub url: String,
    /// The access token; empty where the request carried none.
    pub access: String,
    /// The refresh token; empty where the request carried none.
    pub refresh: String,
}

/// A token as it is forwarded: itself, or the empty text where it is absent.
pub open spec fn forwarded(token: Option<String>) -> Seq<char> {
    match token {
        Some(value) => value@,
        None => Seq::empty(),
    }
}

fn forward(token: Option<String>) -> (value: String)
    ensures
        value@ == forwarded(token),
{
    match token {
        Some(value) => value,
        None => String::new(),
    }
}

/// Prepares the verification call: `{auth_service_url}/verify`, with both
/// tokens, an absent one as the empty text.
pub fn verify_request(auth_service_url: &str, access: Option<String>, refresh: Option<String>) -> (request:
    VerifyRequest)
    ensures
        request.url@ == auth_service_url@ + "/verify"@,
        request.access@ == forwarded(access),
        request.refresh@ == forwarded(refresh),
{
    let mut url = String::from_str(auth_service_url);
    url.append("/verify");
    VerifyRequest { url, access: forward(access), refresh: forward(refresh) }
}

/// Reads the service's answer: the status, and the body where it could be
/// read. Any status but success, and an unreadable body, is refused as
/// unauthorized.
pub fn check_auth(status: u16, body: Option<VerifyJWTResponse>) -> (r: Result<
    VerifyJWTResponse,
    (u16, String),
>)
    ensures
        status == STATUS_OK && body is Some ==> r == Ok::<VerifyJWTResponse, (u16, String)>(
            body->Some_0,
        ),
        !(status == STATUS_OK && body is Some) ==> (r matches Err(refusal) && refusal.0
            == STATUS_UNAUTHORIZED && refusal.1@ == "UNAUTHORIZED"@),
{
    if status == STATUS_OK {
        if let Some(answer) = body {
            return Ok(answer);
        }
    }
    Err((STATUS_UNAUTHORIZED, String::from_str("UNAUTHORIZED")))
}

/// Why a session was not verified.
#[derive(Debug, Clone, Copy, PartialEq, Eq, Structural)]
pub enum AuthFailure {
    /// The service answered with another status than success.
    Rejected,
    /// The service's answer could not be read.
    Unreadable,
    /// The service answered, and named no claims.
    NoClaims,
}

/// The identity that the service's answer establishes.
pub open spec fn verified(status: u16, body: Option<VerifyJWTResponse>) -> Result<
    Claims,
    AuthFailure,
> {
    if status != STATUS_OK {
        Err(AuthFailure::Rejected)
    } else {
        match body {
            None => Err(AuthFailure::Unreadable),
            Some(answer) => match answer.claims {
                None => Err(AuthFailure::NoClaims),
                Some(claims) => Ok(claims),
            },
        }
    }
}

/// Establishes the identity from the service's answer. Claims are owed
/// exactly where the status is success and the body names them.
pub fn verify(status: u16, body: Option<VerifyJWTResponse>) -> (r: Result<Claims, AuthFailure>)
    ensures
        r == verified(status, body),
        r is Ok <==> (status == STATUS_OK && body is Some && body->Some_0.claims is Some),
{
    if status != STATUS_OK {
        return Err(AuthFailure::Rejected);
    }
    match body {
        None => Err(AuthFailure::Unreadable),
        Some(answer) => match answer.claims {
            None => Err(AuthFailure::NoClaims),
            Some(claims) => Ok(claims),
        },
    }
}

} // verus!
