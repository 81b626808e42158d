use vstd::prelude::*;
use crate::domain::refresh_token::vo::{RefreshTokenId, TokenHash};
use crate::domain::error::DomainError;
use crate::domain::types::{utc_now, UtcDateTime};
use crate::domain::user::vo::UserId;

verus! {

/// A stored refresh token.
#[derive(Debug)]
pub struct RefreshToken {
    pub id: RefreshTokenId,
    pub user_id: UserId,
    pub token_hash: TokenHash,
    pub expires_at: UtcDateTime,
    pub created_at: UtcDateTime,
    pub revoked_at: Option<UtcDateTime>,
}

impl Clone for RefreshToken {
    fn clone(&self) -> (res: Self)
        ensures
            res == *self,
    {
        RefreshToken {
            id: self.id,
            user_id: self.user_id,
            token_hash: self.token_hash.clone(),
            expires_at: self.expires_at,
            created_at: self.created_at,
            revoked_at: self.revoked_at,
        }
    }
}

impl RefreshToken {
    /// A token can be used at `now` when it was never revoked and expires
    /// strictly after `now`.
    pub open spec fn valid_at(self, now: UtcDateTime) -> bool {
        self.revoked_at is None && self.expires_at.is_after(now)
    }

    pub fn is_valid_at(&self, now: UtcDateTime) -> (res: bool)
        ensures
            res == self.valid_at(now),
    {
        self.revoked_at.is_none() && self.expires_at.after(&now)
    }

    /// Whether the token can be used now: it is judged at the instant the
    /// system clock gives, which is not before the Unix epoch. A revoked
    /// token is never valid, nor one that expired by the epoch; a clock that
    /// cannot be read gives the error.
    pub fn is_valid(&self) -> (res: Result<bool, DomainError>)
        ensures
            res matches Ok(b) ==> b ==> self.revoked_at is None,
            res matches Ok(b) ==> exists|now: UtcDateTime|
                now.micros >= 0 && b == #[trigger] self.valid_at(now),
            res matches Ok(b) ==> (self.expires_at.micros <= 0 ==> !b),
            res matches Err(e) ==> e is Unexpected,
    {
        let now = utc_now()?;
        Ok(self.is_valid_at(now))
    }

    /// A token is never valid at an instant it expires by, so no clock
    /// reading (none is before the Unix epoch) finds a token valid that
    /// expired by the epoch, and a revoked token is valid at no instant.
    pub proof fn lemma_invalid_once_expired(self, now: UtcDateTime)
        ensures
            self.expires_at.micros <= now.micros ==> !self.valid_at(now),
            self.revoked_at is Some ==> !self.valid_at(now),
            now.micros >= 0 && self.expires_at.micros <= 0 ==> !self.valid_at(now),
            self.revoked_at is None && self.expires_at.micros > now.micros ==> self.valid_at(now),
    {
    }

    /// A token that is valid at some time was valid at every earlier time
    /// (validity only ever runs out).
    pub proof fn lemma_valid_earlier(self, earlier: UtcDateTime, later: UtcDateTime)
        requires
            earlier.micros <= later.micros,
            self.valid_at(later),
        ensures
            self.valid_at(earlier),
    {
    }
}

} // verus!
