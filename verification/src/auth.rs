//! The authorization guard.
//!
//! Every call that changes state passes the guard first. A call names the
//! authority it needs; the guard lets the caller through if the caller signs
//! as that authority, or presents a session token that the issuer of session
//! tokens accepts for it. The guard keeps no memory: it is asked on each call.

use vstd::prelude::*;
use crate::error::GameError;
use crate::identity::Identity;

verus! {

/// A session token as it is presented with a call.
///
/// Session tokens are issued and checked outside this library. What the guard
/// reads of one is the authority it was issued for, and the verdict of the
/// issuer's check for this call.
#[derive(Clone, Copy, Debug, PartialEq, Eq)]
pub struct SessionToken {
    /// The principal on whose behalf the holder of the token may act.
    pub authority: Identity,
    /// Whether the issuer's check accepts the token now, for the signer of
    /// this call and the authority that the call requires.
    pub valid: bool,
}

impl SessionToken {
    /// Whether the token lets its holder act for `authority`.
    pub open spec fn spec_speaks_for(&self, authority: &Identity) -> bool {
        self.valid && self.authority == *authority
    }

    /// Whether the token lets its holder act for `authority`.
    #[verifier::when_used_as_spec(spec_speaks_for)]
    pub fn speaks_for(&self, authority: &Identity) -> (b: bool)
        ensures
            b == self.spec_speaks_for(authority),
    {
        self.valid && self.authority == *authority
    }
}

/// The authority that a call requires of its caller.
#[derive(Clone, Copy, Debug, PartialEq, Eq)]
pub enum Authority {
    /// The call belongs to one principal: the owner of a profile, the host of
    /// a room. The caller signs as that principal or holds a session for it.
    Exactly(Identity),
    /// The call is open to every player. The caller declares whom it acts
    /// for; its signature must not be that of nobody, and a session token, if
    /// it presents one, must be a session for the declared principal.
    ///
    /// Both are asked together, on purpose: a valid token does not make up
    /// for a signature of nobody, and a signature does not make up for a
    /// token that is not valid or is somebody else's.
    Declared(Identity),
}

/// Whether the guard lets a call through.
pub open spec fn authorized(
    signer: Identity,
    session_token: Option<SessionToken>,
    required: Authority,
) -> bool {
    match required {
        Authority::Exactly(owner) => {
            ||| signer == owner
            ||| session_token matches Some(token) && token.spec_speaks_for(&owner)
        },
        Authority::Declared(player) => {
            &&& !signer.spec_is_null()
            &&& session_token matches Some(token) ==> token.spec_speaks_for(&player)
        },
    }
}

/// What a call returns once the guard has been asked: what the step behind
/// the guard returns, if the caller was let through.
pub open spec fn guarded<S>(authorized: bool, step: Result<S, GameError>) -> Result<S, GameError> {
    if authorized {
        step
    } else {
        Err(GameError::InvalidAuth)
    }
}

/// Asks the guard whether `signer`, with the session token it presents, may
/// make a call that requires `required`.
pub fn authorize(
    signer: &Identity,
    session_token: &Option<SessionToken>,
    required: &Authority,
) -> (r: Result<(), GameError>)
    ensures
        r == guarded(authorized(*signer, *session_token, *required), Ok(())),
{
    let allowed = match required {
        Authority::Exactly(owner) => {
            *signer == *owner || match session_token {
                Some(token) => token.speaks_for(owner),
                None => false,
            }
        },
        Authority::Declared(player) => {
            !signer.is_null() && match session_token {
                Some(token) => token.speaks_for(player),
                None => true,
            }
        },
    };
    if allowed {
        Ok(())
    } else {
        Err(GameError::InvalidAuth)
    }
}

} // verus!
