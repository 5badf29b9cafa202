//! The claims of signed access tokens.

use vstd::prelude::*;
use vstd::string::*;

use crate::portfolio::auth::Claims;

verus! {

/// How long an access token lives: three days, in seconds.
pub const ACCESS_TOKEN_TTL_SECS: i64 = 259200i64;

/// The claims of an access token issued at `now` (seconds since the Unix
/// epoch): the user id, the username, and an expiry three days later,
/// truncated to 32 bits.
pub fn access_claims(user_id: &str, username: &str, now: i64) -> (r: Claims)
    requires
        now + ACCESS_TOKEN_TTL_SECS <= i64::MAX,
    ensures
        r.sub@ == user_id@,
        r.username@ == username@,
        r.exp == (now + ACCESS_TOKEN_TTL_SECS) as u32,
{
    let exp: i64 = now + ACCESS_TOKEN_TTL_SECS;
    Claims { sub: String::from_str(user_id), username: String::from_str(username), exp: exp as u32 }
}

} // verus!
