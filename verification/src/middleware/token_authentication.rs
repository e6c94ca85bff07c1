use crate::strategies::authentication::{
    expired,
    validate_claims,
    AuthConfig,
    AuthError,
    Claims,
    ErrorResponse,
};
use vstd::prelude::*;

verus! {

/// The check in front of a route that takes claims which were decoded
/// elsewhere: either the request goes on, or it is answered at once with the
/// response for an expired token.
pub fn authenticate_token(claims: &Claims, config: &AuthConfig, now: u64) -> (res: Result<
    (),
    ErrorResponse,
>)
    ensures
        expired(claims.iat, now, config.ttl) ==> (res matches Err(response) && response@
            == AuthError::TokenExpired.spec_response()),
        !expired(claims.iat, now, config.ttl) ==> res is Ok,
{
    match validate_claims(claims, now, config.ttl) {
        Ok(()) => Ok(()),
        Err(e) => Err(e.into_response()),
    }
}

} // verus!
