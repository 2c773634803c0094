//! Authentication of the admin surface by bearer token.

use crate::error::ErrorResponse;
use crate::text::{chars_of, has_prefix, starts_with};
use vstd::prelude::*;
use vstd::string::*;

verus! {

/// What an `Authorization` header must begin with.
pub const BEARER_PREFIX: &'static str = "Bearer ";

/// What is said of a request without a bearer header.
pub const ERR_NO_BEARER: &'static str = "Missing or invalid Authorization header";

/// What is said of a request with the wrong token.
pub const ERR_BAD_TOKEN: &'static str = "Invalid admin API token";

/// The class under which both refusals are answered.
pub const UNAUTHORIZED_CODE: &'static str = "UNAUTHORIZED";

/// The token that an `Authorization` header carries: what follows `Bearer `.
/// A missing header, and one that does not begin so, carries none.
pub open spec fn bearer_token(authorization: Option<Seq<char>>) -> Option<Seq<char>> {
    match authorization {
        Some(header) => if has_prefix(header, BEARER_PREFIX@) {
            Some(header.subrange(BEARER_PREFIX@.len() as int, header.len() as int))
        } else {
            None
        },
        None => None,
    }
}

/// Whether a request with this `Authorization` header may use the admin
/// surface that is guarded by `expected`.
pub open spec fn admin_may_pass(authorization: Option<Seq<char>>, expected: Seq<char>) -> bool {
    bearer_token(authorization) == Some(expected)
}

/// Whether `header`, which begins with `Bearer `, carries exactly `expected`
/// behind it.
fn token_is(header: &str, expected: &str) -> (r: bool)
    requires
        has_prefix(header@, BEARER_PREFIX@),
    ensures
        r == (header@.subrange(BEARER_PREFIX@.len() as int, header@.len() as int) == expected@),
{
    proof {
        reveal_strlit("Bearer ");
    }
    let h = chars_of(header);
    let e = chars_of(expected);
    let skip: usize = 7;
    if h.len() - skip != e.len() {
        return false;
    }
    let ghost token = header@.subrange(BEARER_PREFIX@.len() as int, header@.len() as int);
    let mut i: usize = 0;
    while i < e.len()
        invariant
            h@ == header@,
            e@ == expected@,
            skip == 7,
            BEARER_PREFIX@.len() == 7,
            h.len() == e.len() + skip,
            token == header@.subrange(BEARER_PREFIX@.len() as int, header@.len() as int),
            i <= e.len(),
            forall|j: int| 0 <= j < i ==> token[j] == e[j],
        decreases e.len() - i,
    {
        if h[i + skip] != e[i] {
            assert(token[i as int] != expected@[i as int]);
            return false;
        }
        i += 1;
    }
    assert(token =~= expected@);
    true
}

/// The answer to a request that may not pass.
fn unauthorized(message: &str) -> (r: ErrorResponse)
    ensures
        r.status == 401,
        r.code@ == UNAUTHORIZED_CODE@,
        r.message@ == message@,
        !r.report,
{
    ErrorResponse {
        status: 401,
        code: String::from_str(UNAUTHORIZED_CODE),
        message: String::from_str(message),
        report: false,
    }
}

/// Checks the `Authorization` header of an admin request against the
/// configured token. The header must read `Bearer ` followed by exactly the
/// token; anything else is answered with `401`.
pub fn admin_auth(authorization: &Option<String>, expected_token: &str) -> (r: Result<
    (),
    ErrorResponse,
>)
    ensures
        r is Ok <==> admin_may_pass(authorization.deep_view(), expected_token@),
        r matches Err(e) ==> {
            &&& e.status == 401
            &&& e.code@ == UNAUTHORIZED_CODE@
            &&& !e.report
            &&& e.message@ == (if bearer_token(authorization.deep_view()) is None {
                ERR_NO_BEARER@
            } else {
                ERR_BAD_TOKEN@
            })
        },
{
    match authorization {
        Some(header) => {
            if !starts_with(header.as_str(), BEARER_PREFIX) {
                return Err(unauthorized(ERR_NO_BEARER));
            }
            if !token_is(header.as_str(), expected_token) {
                return Err(unauthorized(ERR_BAD_TOKEN));
            }
            Ok(())
        },
        None => Err(unauthorized(ERR_NO_BEARER)),
    }
}

} // verus!
