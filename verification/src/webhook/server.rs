//! The request handler's decisions: which endpoint a request names, and
//! whether its bearer token is the server's, and how a refused one is answered.

use vstd::prelude::*;

use crate::yaml::value::str_eq;

verus! {

/// What a request asks the server for.
#[derive(Debug, Clone, Copy, PartialEq, Eq)]
pub enum Endpoint {
    /// `DEPLOY` or `REDEPLOY`: build and deploy a challenge.
    Deploy,
    /// `DELETE`: take a challenge off the cluster and delete its image.
    Delete,
    /// `POLL`: report the status of a deployment.
    Poll,
    /// Any other name.
    Unknown,
}

pub open spec fn spec_route(endpoint_name: Seq<char>) -> Endpoint {
    if endpoint_name == "REDEPLOY"@ || endpoint_name == "DEPLOY"@ {
        Endpoint::Deploy
    } else if endpoint_name == "DELETE"@ {
        Endpoint::Delete
    } else if endpoint_name == "POLL"@ {
        Endpoint::Poll
    } else {
        Endpoint::Unknown
    }
}

/// The endpoint an (upper-cased) endpoint name names.
pub fn route(endpoint_name: &str) -> (r: Endpoint)
    ensures
        r == spec_route(endpoint_name@),
{
    if str_eq(endpoint_name, "REDEPLOY") || str_eq(endpoint_name, "DEPLOY") {
        Endpoint::Deploy
    } else if str_eq(endpoint_name, "DELETE") {
        Endpoint::Delete
    } else if str_eq(endpoint_name, "POLL") {
        Endpoint::Poll
    } else {
        Endpoint::Unknown
    }
}

/// Calls `constant_time_eq::constant_time_eq_32` on two 32-byte strings, which
/// says whether they are equal (taking the same time whatever they hold).
#[verifier::external_body]
fn equal_in_constant_time(a: &[u8], b: &[u8]) -> (r: bool)
    requires
        a@.len() == 32,
        b@.len() == 32,
    ensures
        r == (a@ == b@),
{
    let a32: &[u8; 32] = a.try_into().unwrap();
    let b32: &[u8; 32] = b.try_into().unwrap();
    constant_time_eq::constant_time_eq_32(a32, b32)
}

/// Why a request's bearer token is refused.
#[derive(Debug, Clone, Copy, PartialEq, Eq)]
pub enum Authentication {
    /// The token is not 32 bytes long: a malformed request.
    BadRequest,
    /// The token is 32 bytes long but not the server's: an unauthorized request.
    InvalidToken,
}

impl Authentication {
    /// The status the refusal is answered with: 400, or 401.
    pub fn status_code(&self) -> (r: u16)
        ensures
            r == match *self {
                Authentication::BadRequest => 400u16,
                Authentication::InvalidToken => 401u16,
            },
    {
        match self {
            Authentication::BadRequest => 400,
            Authentication::InvalidToken => 401,
        }
    }

    /// The body the refusal is answered with.
    pub fn message(&self) -> (r: &'static str)
        ensures
            r@ == match *self {
                Authentication::BadRequest => "Malformed Request"@,
                Authentication::InvalidToken => "Unauthorized Request"@,
            },
    {
        proof {
            reveal_strlit("Malformed Request");
            reveal_strlit("Unauthorized Request");
        }
        match self {
            Authentication::BadRequest => "Malformed Request",
            Authentication::InvalidToken => "Unauthorized Request",
        }
    }
}

/// Checks a request's bearer token against the server's own 32-byte token: a
/// token of another length is a malformed request; a 32-byte token is
/// compared in constant time, and one that differs is unauthorized.
pub fn validate_token(given: &[u8], expected: &[u8]) -> (r: Result<(), Authentication>)
    requires
        expected@.len() == 32,
    ensures
        r is Ok <==> given@ == expected@,
        r == Err::<(), Authentication>(Authentication::BadRequest) <==> given@.len() != 32,
        r == Err::<(), Authentication>(Authentication::InvalidToken) <==> (given@.len() == 32 && given@ != expected@),
{
    if given.len() != 32 {
        Err(Authentication::BadRequest)
    } else if equal_in_constant_time(given, expected) {
        Ok(())
    } else {
        Err(Authentication::InvalidToken)
    }
}

} // verus!
