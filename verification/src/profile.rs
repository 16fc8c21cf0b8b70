//! Profiles: one per player, holding the player's score and whether a game
//! session is in progress.
//!
//! A profile is idle or in session. `start_game` opens a session, `kill_zombie`
//! scores in it, `end_game` closes it. Settlement hands the profile back to
//! the base layer as it stands; it is a call of its own, after `end_game`, so
//! that no call both writes a profile and gives it away.

use vstd::prelude::*;
use crate::auth::{authorize, authorized, guarded, Authority, SessionToken};
use crate::delegation::{delegation_of, profile_seeds, spec_profile_seeds, Delegation};
use crate::error::GameError;
use crate::identity::Identity;
use crate::limits::{capped, max_points};

verus! {

/// A player's profile.
#[derive(Clone, Copy, Debug, PartialEq, Eq)]
pub struct Profile {
    /// The player who owns the profile. Set at creation, then never changed.
    pub authority: Identity,
    /// The score so far.
    pub points: u64,
    /// Whether a game session is in progress.
    pub game_active: bool,
}

/// A profile as a mathematical value.
pub struct ProfileState {
    pub authority: Identity,
    pub points: nat,
    pub game_active: bool,
}

impl View for Profile {
    type V = ProfileState;

    open spec fn view(&self) -> ProfileState {
        ProfileState {
            authority: self.authority,
            points: self.points as nat,
            game_active: self.game_active,
        }
    }
}

impl ProfileState {
    /// The values that a `Profile` can hold.
    pub open spec fn wf(self) -> bool {
        self.points <= max_points()
    }

    /// The profile of a player who has not played yet.
    pub open spec fn created(authority: Identity) -> ProfileState {
        ProfileState { authority, points: 0, game_active: false }
    }

    /// Opening a session: only from idle.
    pub open spec fn start_game(self) -> Result<ProfileState, GameError> {
        if self.game_active {
            Err(GameError::GameAlreadyActive)
        } else {
            Ok(ProfileState { game_active: true, ..self })
        }
    }

    /// Scoring a kill worth `reward`: only in session. The score stops at
    /// `max_points()`.
    pub open spec fn kill_zombie(self, reward: nat) -> Result<ProfileState, GameError> {
        if !self.game_active {
            Err(GameError::GameNotActive)
        } else {
            Ok(ProfileState { points: capped(self.points + reward, max_points()), ..self })
        }
    }

    /// Closing the session: only in session.
    pub open spec fn end_game(self) -> Result<ProfileState, GameError> {
        if !self.game_active {
            Err(GameError::GameNotActive)
        } else {
            Ok(ProfileState { game_active: false, ..self })
        }
    }

    /// Settling: the state that goes back to the base layer is the state as
    /// it stands, in session or not.
    pub open spec fn settle(self) -> ProfileState {
        self
    }
}

impl Profile {
    /// The value of a profile is one that a `Profile` can hold, and two
    /// profiles with the same value are the same profile.
    pub proof fn lemma_view(a: Profile, b: Profile)
        ensures
            a@.wf(),
            a@ == b@ <==> a == b,
    {
    }

    /// The profile of a player who has not played yet.
    pub fn new(authority: Identity) -> (profile: Profile)
        ensures
            profile@ == ProfileState::created(authority),
    {
        Profile { authority, points: 0, game_active: false }
    }

    /// Opens a game session.
    pub fn start_game(&mut self) -> (r: Result<(), GameError>)
        ensures
            match old(self)@.start_game() {
                Ok(next) => r is Ok && final(self)@ == next,
                Err(e) => r == Err::<(), GameError>(e) && *final(self) == *old(self),
            },
    {
        if self.game_active {
            return Err(GameError::GameAlreadyActive);
        }
        self.game_active = true;
        Ok(())
    }

    /// Scores a kill worth `reward`.
    pub fn kill_zombie(&mut self, reward: u64) -> (r: Result<(), GameError>)
        ensures
            match old(self)@.kill_zombie(reward as nat) {
                Ok(next) => r is Ok && final(self)@ == next,
                Err(e) => r == Err::<(), GameError>(e) && *final(self) == *old(self),
            },
    {
        if !self.game_active {
            return Err(GameError::GameNotActive);
        }
        self.points = self.points.saturating_add(reward);
        Ok(())
    }

    /// Closes the game session.
    pub fn end_game(&mut self) -> (r: Result<(), GameError>)
        ensures
            match old(self)@.end_game() {
                Ok(next) => r is Ok && final(self)@ == next,
                Err(e) => r == Err::<(), GameError>(e) && *final(self) == *old(self),
            },
    {
        if !self.game_active {
            return Err(GameError::GameNotActive);
        }
        self.game_active = false;
        Ok(())
    }
}

/// What `initialize_profile` works on.
#[derive(Clone, Copy, Debug, PartialEq, Eq)]
pub struct InitializeProfile {
    /// The profile of `authority`, if it has one already.
    pub profile: Option<Profile>,
    /// The player who asks for a profile, and pays for it.
    pub authority: Identity,
}

/// What `delegate_game` works on.
#[derive(Clone, Copy, Debug, PartialEq, Eq)]
pub struct DelegateProfile {
    /// The player whose profile is delegated, and who pays for it.
    pub payer: Identity,
    /// The address of the profile.
    pub pda: Identity,
}

/// What the calls that play a game work on.
#[derive(Clone, Copy, Debug, PartialEq, Eq)]
pub struct GameAction {
    /// The profile that is played on.
    pub profile: Profile,
    /// Who signed the call.
    pub signer: Identity,
    /// The session token presented with the call, if any.
    pub session_token: Option<SessionToken>,
}

/// What `undelegate_game` works on.
#[derive(Clone, Copy, Debug, PartialEq, Eq)]
pub struct CommitProfile {
    /// The player whose profile is settled, and who pays for it.
    pub payer: Identity,
    /// The profile as it stands on the rollup layer.
    pub profile: Profile,
}

impl GameAction {
    /// A profile is played by its owner.
    pub open spec fn spec_required_authority(&self) -> Authority {
        Authority::Exactly(self.profile.authority)
    }

    /// A profile is played by its owner.
    #[verifier::when_used_as_spec(spec_required_authority)]
    pub fn required_authority(&self) -> (required: Authority)
        ensures
            required == self.spec_required_authority(),
    {
        Authority::Exactly(self.profile.authority)
    }

    /// Whether the guard lets this call through.
    pub open spec fn authorized(&self) -> bool {
        authorized(self.signer, self.session_token, self.spec_required_authority())
    }
}

/// Reads what is stored at a profile's address as the profile that exists
/// there, if any. An account that was allocated and never written names
/// nobody as its owner: it holds no profile yet. Every other account holds
/// the profile that it stores.
pub fn stored_profile(raw: Profile) -> (r: Option<Profile>)
    ensures
        r == if raw.authority.spec_is_null() {
            None
        } else {
            Some(raw)
        },
{
    if raw.authority.is_null() {
        None
    } else {
        Some(raw)
    }
}

/// Gives `ctx.authority` a profile with no points and no session, unless it
/// has one: an existing profile is left as it is.
pub fn initialize_profile(ctx: &mut InitializeProfile) -> (r: Result<(), GameError>)
    ensures
        r is Ok,
        final(ctx).authority == old(ctx).authority,
        match old(ctx).profile {
            Some(existing) => final(ctx).profile == Some(existing),
            None => final(ctx).profile matches Some(profile) && profile@ == ProfileState::created(
                old(ctx).authority,
            ),
        },
{
    if ctx.profile.is_none() {
        ctx.profile = Some(Profile::new(ctx.authority));
    }
    Ok(())
}

/// Plans the handing of the payer's profile to the rollup layer: under which
/// seeds the profile's address is derived, and to which validator it goes
/// (the first of `remaining_accounts`, if there is one).
pub fn delegate_game(ctx: &DelegateProfile, remaining_accounts: &[Identity]) -> (r: Result<
    Delegation,
    GameError,
>)
    ensures
        r matches Ok(delegation) && delegation@ == delegation_of(
            ctx.payer,
            ctx.pda,
            spec_profile_seeds(ctx.payer@),
            remaining_accounts@,
        ),
{
    Ok(Delegation::new(ctx.payer, ctx.pda, profile_seeds(&ctx.payer), remaining_accounts))
}

/// Opens a game session on the profile.
pub fn start_game(ctx: &mut GameAction) -> (r: Result<(), GameError>)
    ensures
        final(ctx).signer == old(ctx).signer,
        final(ctx).session_token == old(ctx).session_token,
        match guarded(old(ctx).authorized(), old(ctx).profile@.start_game()) {
            Ok(next) => r is Ok && final(ctx).profile@ == next,
            Err(e) => r == Err::<(), GameError>(e) && final(ctx).profile == old(ctx).profile,
        },
{
    authorize(&ctx.signer, &ctx.session_token, &ctx.required_authority())?;
    ctx.profile.start_game()
}

/// Scores a kill worth `reward` on the profile.
pub fn kill_zombie(ctx: &mut GameAction, reward: u64) -> (r: Result<(), GameError>)
    ensures
        final(ctx).signer == old(ctx).signer,
        final(ctx).session_token == old(ctx).session_token,
        match guarded(old(ctx).authorized(), old(ctx).profile@.kill_zombie(reward as nat)) {
            Ok(next) => r is Ok && final(ctx).profile@ == next,
            Err(e) => r == Err::<(), GameError>(e) && final(ctx).profile == old(ctx).profile,
        },
{
    authorize(&ctx.signer, &ctx.session_token, &ctx.required_authority())?;
    ctx.profile.kill_zombie(reward)
}

/// Closes the game session on the profile. The profile stays on the rollup
/// layer until `undelegate_game`.
pub fn end_game(ctx: &mut GameAction) -> (r: Result<(), GameError>)
    ensures
        final(ctx).signer == old(ctx).signer,
        final(ctx).session_token == old(ctx).session_token,
        match guarded(old(ctx).authorized(), old(ctx).profile@.end_game()) {
            Ok(next) => r is Ok && final(ctx).profile@ == next,
            Err(e) => r == Err::<(), GameError>(e) && final(ctx).profile == old(ctx).profile,
        },
{
    authorize(&ctx.signer, &ctx.session_token, &ctx.required_authority())?;
    ctx.profile.end_game()
}

/// Settles the profile: returns the state that goes back to the base layer,
/// which is the profile as it stands, in session or not.
pub fn undelegate_game(ctx: &CommitProfile) -> (r: Result<Profile, GameError>)
    ensures
        r matches Ok(committed) && committed@ == ctx.profile@.settle(),
{
    Ok(ctx.profile)
}

} // verus!
