//! Credentials: the headers that every authenticated request carries.
use vstd::prelude::*;
use vstd::string::*;
use crate::error::{AuthKeyReason, GazenotErrorInner, ResultInner};
use crate::outside::{header_value_ok, header_value_valid};
use crate::types::{Owner, SourceHost};

verus! {

/// The authorization header's value for `token`.
pub open spec fn bearer_text(token: Seq<char>) -> Seq<char> {
    "Bearer "@ + token
}

/// The identity header's value: `source_host/owner`.
pub open spec fn identity_text(source_host: Seq<char>, owner: Seq<char>) -> Seq<char> {
    source_host + "/"@ + owner
}

/// The headers `h` are exactly the authorization header for `token` and the
/// identity header for `source_host/owner`, in that order.
pub open spec fn is_auth_headers(
    h: Seq<(String, String)>,
    source_host: Seq<char>,
    owner: Seq<char>,
    token: Seq<char>,
) -> bool {
    &&& h.len() == 2
    &&& h[0].0@ == "authorization"@
    &&& h[0].1@ == bearer_text(token)
    &&& h[1].0@ == "x-axo-identifier"@
    &&& h[1].1@ == identity_text(source_host, owner)
}

/// The credential headers for a client, from the token of the environment
/// (`None` where the variable is not set).
///
/// Fails with `AuthKey(Missing)` without a token, `AuthKey(Empty)` for an
/// empty one, `AuthKey(InvalidCharacters)` where `Bearer <token>` cannot be a
/// header value, and `InvalidIdentity` where `source_host/owner` cannot.
pub fn auth_headers(source_host: &SourceHost, owner: &Owner, token: Option<String>) -> (r:
    ResultInner<Vec<(String, String)>>)
    ensures
        token is None ==> r matches Err(GazenotErrorInner::AuthKey { reason: AuthKeyReason::Missing }),
        token matches Some(t) ==> {
            if t@.len() == 0 {
                r matches Err(GazenotErrorInner::AuthKey { reason: AuthKeyReason::Empty })
            } else if !header_value_ok(bearer_text(t@)) {
                r matches Err(GazenotErrorInner::AuthKey { reason: AuthKeyReason::InvalidCharacters })
            } else if !header_value_ok(identity_text(source_host@, owner@)) {
                r matches Err(GazenotErrorInner::InvalidIdentity { identity })
                    && identity@ == identity_text(source_host@, owner@)
            } else {
                r matches Ok(h) && is_auth_headers(h@, source_host@, owner@, t@)
            }
        },
{
    let token = match token {
        Some(t) => t,
        None => return Err(GazenotErrorInner::AuthKey { reason: AuthKeyReason::Missing }),
    };
    if token.as_str().is_empty() {
        return Err(GazenotErrorInner::AuthKey { reason: AuthKeyReason::Empty });
    }
    let mut bearer = String::from_str("Bearer ");
    bearer.append(token.as_str());
    if !header_value_valid(bearer.as_str()) {
        return Err(GazenotErrorInner::AuthKey { reason: AuthKeyReason::InvalidCharacters });
    }
    let mut identity = source_host.clone();
    identity.append("/");
    identity.append(owner.as_str());
    if !header_value_valid(identity.as_str()) {
        return Err(GazenotErrorInner::InvalidIdentity { identity });
    }
    let headers = vec![
        (String::from_str("authorization"), bearer),
        (String::from_str("x-axo-identifier"), identity),
    ];
    Ok(headers)
}

} // verus!
