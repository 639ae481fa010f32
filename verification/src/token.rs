//! Token issuance: a stateless component over the signing secrets and
//! expirations it was constructed with, producing an access/refresh token
//! pair. The signature primitive itself is an external collaborator: the
//! caller performs the two opaque sign operations and hands their outcomes
//! in; the issuer builds the pair, and either both tokens are issued or the
//! whole operation fails — no partial pair is ever returned.

use vstd::prelude::*;

verus! {

/// One signed token: the opaque signed text together with the subject and
/// the expiration instant it binds.
pub struct SignedToken {
    pub token: String,
    pub subject_id: u64,
    pub expires_at: u64,
}

/// An access token plus a refresh token, each independently signed and
/// time-bounded. Ephemeral: never persisted.
pub struct TokenPair {
    pub access_token: SignedToken,
    pub refresh_token: SignedToken,
}

/// Failure to produce the pair: at least one of the two sign operations
/// produced nothing.
pub enum TokenError {
    SigningFailed,
}

/// The token issuer's configuration: one secret and one time-to-live per
/// token kind, passed in at construction.
pub struct TokenIssuer {
    pub access_secret: String,
    pub refresh_secret: String,
    pub access_ttl: u64,
    pub refresh_ttl: u64,
}

impl TokenIssuer {
    pub fn new(access_secret: String, refresh_secret: String, access_ttl: u64, refresh_ttl: u64)
        -> (r: Self)
        ensures
            r.access_secret@ == access_secret@,
            r.refresh_secret@ == refresh_secret@,
            r.access_ttl == access_ttl,
            r.refresh_ttl == refresh_ttl,
    {
        TokenIssuer { access_secret, refresh_secret, access_ttl, refresh_ttl }
    }

    /// Builds the pair for `subject_id` from the outcomes of the two opaque
    /// sign operations, the access one first. Both tokens carry the subject
    /// and their own expiration, `now` plus the configured time-to-live.
    /// If either sign operation failed, no pair is returned at all.
    pub fn issue(&self, subject_id: u64, now: u64, access_signed: Option<String>, refresh_signed:
        Option<String>) -> (r: Result<TokenPair, TokenError>)
        requires
            now + self.access_ttl <= u64::MAX,
            now + self.refresh_ttl <= u64::MAX,
        ensures
            access_signed is Some && refresh_signed is Some <==> r is Ok,
            r matches Ok(p) ==> {
                &&& p.access_token.token == access_signed.unwrap()
                &&& p.access_token.subject_id == subject_id
                &&& p.access_token.expires_at == now + self.access_ttl
                &&& p.refresh_token.token == refresh_signed.unwrap()
                &&& p.refresh_token.subject_id == subject_id
                &&& p.refresh_token.expires_at == now + self.refresh_ttl
            },
            r is Err ==> r == Err::<TokenPair, TokenError>(TokenError::SigningFailed),
    {
        match (access_signed, refresh_signed) {
            (Some(access), Some(refresh)) => Ok(
                TokenPair {
                    access_token: SignedToken {
                        token: access,
                        subject_id,
                        expires_at: now + self.access_ttl,
                    },
                    refresh_token: SignedToken {
                        token: refresh,
                        subject_id,
                        expires_at: now + self.refresh_ttl,
                    },
                },
            ),
            _ => Err(TokenError::SigningFailed),
        }
    }
}

} // verus!
