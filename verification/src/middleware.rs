use vstd::prelude::*;

verus! {

/// How long session tokens live, in days.
pub struct SessionTtlDays {
    /// Lifetime of an access token.
    pub jwt: i64,
    /// Lifetime of a refresh token.
    pub refresh: i64,
}

/// Access tokens live two weeks; refresh tokens three months of 31 days.
pub fn session_ttl_days() -> (ttl: SessionTtlDays)
    ensures
        ttl.jwt == 14,
        ttl.refresh == 93,
{
    SessionTtlDays { jwt: 14, refresh: 3 * 31 }
}

} // verus!
