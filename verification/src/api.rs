//! Values the HTTP handlers compute themselves: the session cookie set on
//! login and the defaults of query parameters.

use vstd::prelude::*;
use crate::text::{push_decimal, push_str};

verus! {

/// Query parameters of the update-history endpoint.
#[derive(Clone, Copy, Debug, PartialEq, Eq)]
pub struct HistoryQuery {
    /// Max entries to return.
    pub limit: u32,
}

/// Number of history entries returned when the query names no limit.
pub fn default_history_limit() -> (r: u32)
    ensures
        r == 20,
{
    20
}

impl HistoryQuery {
    /// The query as received without a `limit` parameter.
    pub fn with_default_limit() -> (r: HistoryQuery)
        ensures
            r.limit == 20,
    {
        HistoryQuery { limit: default_history_limit() }
    }
}

/// The `Set-Cookie` value issued on a successful login.
pub open spec fn session_cookie_text(token: Seq<char>, max_age_seconds: u64) -> Seq<char> {
    "wardnet_session="@ + token + "; HttpOnly; SameSite=Strict; Path=/; Max-Age="@
        + crate::text::decimal(max_age_seconds as nat)
}

/// The session cookie for a freshly issued token: HTTP-only, same-site
/// strict, valid for the whole site for `max_age_seconds`.
pub fn session_cookie(token: &str, max_age_seconds: u64) -> (r: String)
    ensures
        r@ == session_cookie_text(token@, max_age_seconds),
{
    let mut r = String::new();
    push_str(&mut r, "wardnet_session=");
    push_str(&mut r, token);
    push_str(&mut r, "; HttpOnly; SameSite=Strict; Path=/; Max-Age=");
    push_decimal(&mut r, max_age_seconds);
    proof {
        assert(Seq::<char>::empty() + "wardnet_session="@ =~= "wardnet_session="@);
    }
    r
}

} // verus!
