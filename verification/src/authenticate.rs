//! Bearer-token checks for inbound requests.

use vstd::prelude::*;
use vstd::string::StrSliceExecFns;

use crate::text::range_eq;

verus! {

/// Raw bearer-token header value, as received from the caller.
#[derive(Debug)]
pub struct AccessToken(pub String);

/// Why a request carried no usable token.
#[derive(Clone, Copy, Debug, PartialEq, Eq, Structural)]
pub enum AccessTokenError {
    Missing,
    Invalid,
}

/// A header value is a valid bearer token when it literally starts with
/// `Bearer ` followed by a value: at least one character after the scheme.
pub open spec fn spec_token_valid(t: Seq<char>) -> bool {
    t.len() > 7 && t.subrange(0, 7) == "Bearer "@
}

/// Accepts a header value that starts with `Bearer ` followed by a value.
pub fn is_token_valid(token: &str) -> (valid: bool)
    ensures
        valid == spec_token_valid(token@),
{
    proof {
        reveal_strlit("Bearer ");
    }
    let n = token.unicode_len();
    if n >= 8 {
        let r = range_eq(token, 0, "Bearer ", 7);
        proof {
            assert("Bearer "@.subrange(0, 7) =~= "Bearer "@);
        }
        r
    } else {
        false
    }
}

/// Decision on the `token` headers of a request: no header at all means the
/// token is missing; exactly one header whose value is a valid bearer token
/// is accepted; anything else is invalid.
pub fn token_from_headers(headers: &Vec<String>) -> (r: Result<AccessToken, AccessTokenError>)
    ensures
        match r {
            Ok(token) => headers@.len() == 1 && spec_token_valid(headers@[0]@) && token.0@
                == headers@[0]@,
            Err(e) => match e {
                AccessTokenError::Missing => headers@.len() == 0,
                AccessTokenError::Invalid => headers@.len() >= 2 || (headers@.len() == 1
                    && !spec_token_valid(headers@[0]@)),
            },
        },
{
    if headers.len() == 0 {
        Err(AccessTokenError::Missing)
    } else if headers.len() == 1 {
        let h = &headers[0];
        if is_token_valid(h.as_str()) {
            Ok(AccessToken(h.clone()))
        } else {
            Err(AccessTokenError::Invalid)
        }
    } else {
        Err(AccessTokenError::Invalid)
    }
}

} // verus!
