//! Battle rooms: one per room number, shared by a host and the players who
//! join.
//!
//! The host opens and closes the battle; while it is open, any player may
//! join, as long as a slot is free, and any player may score. Settlement
//! hands the room back to the base layer as it stands; it is a call of its
//! own, accepted only after `end_battle`, so that no call both writes a room
//! and gives it away.

use vstd::prelude::*;
use crate::auth::{authorize, authorized, guarded, Authority, SessionToken};
use crate::delegation::{battle_seeds, delegation_of, spec_battle_seeds, Delegation};
use crate::error::GameError;
use crate::identity::Identity;
use crate::limits::{capped, max_player_count, max_total};

verus! {

/// A battle room.
#[derive(Clone, Copy, Debug, PartialEq, Eq)]
pub struct Battle {
    /// The player who created the room and opens and closes its battle.
    pub host: Identity,
    /// The number of the room.
    pub room_id: u64,
    /// How many players the room takes. Set at creation.
    pub max_players: u8,
    /// How many players are in the room.
    pub player_count: u8,
    /// The kills of all players together.
    pub total_zombie_kills: u64,
    /// The points of all players together.
    pub total_points: u64,
    /// Whether the battle is open.
    pub active: bool,
}

/// A battle room as a mathematical value.
pub struct BattleState {
    pub host: Identity,
    pub room_id: nat,
    pub max_players: nat,
    pub player_count: nat,
    pub total_zombie_kills: nat,
    pub total_points: nat,
    pub active: bool,
}

impl View for Battle {
    type V = BattleState;

    open spec fn view(&self) -> BattleState {
        BattleState {
            host: self.host,
            room_id: self.room_id as nat,
            max_players: self.max_players as nat,
            player_count: self.player_count as nat,
            total_zombie_kills: self.total_zombie_kills as nat,
            total_points: self.total_points as nat,
            active: self.active,
        }
    }
}

impl BattleState {
    /// The values that a `Battle` can hold.
    pub open spec fn wf(self) -> bool {
        &&& self.room_id <= u64::MAX
        &&& self.max_players <= max_player_count()
        &&& self.player_count <= max_player_count()
        &&& self.total_zombie_kills <= max_total()
        &&& self.total_points <= max_total()
    }

    /// The room `room_id` as `host` creates it: empty, closed, nothing scored.
    pub open spec fn created(host: Identity, room_id: nat, max_players: nat) -> BattleState {
        BattleState {
            host,
            room_id,
            max_players,
            player_count: 0,
            total_zombie_kills: 0,
            total_points: 0,
            active: false,
        }
    }

    /// Whether every player in the room has a slot.
    pub open spec fn within_capacity(self) -> bool {
        self.player_count <= self.max_players
    }

    /// Opening the battle: only while it is closed. The host takes a slot,
    /// whether or not one is free: a room made for nobody, or a full room that
    /// is opened again, then holds one player more than it takes.
    pub open spec fn start(self) -> Result<BattleState, GameError> {
        if self.active {
            Err(GameError::GameAlreadyActive)
        } else {
            Ok(
                BattleState {
                    active: true,
                    player_count: capped(self.player_count + 1, max_player_count()),
                    ..self
                },
            )
        }
    }

    /// A player joining: only while the battle is open and a slot is free.
    pub open spec fn join(self) -> Result<BattleState, GameError> {
        if !self.active {
            Err(GameError::GameNotActive)
        } else if self.player_count >= self.max_players {
            Err(GameError::BattleRoomFull)
        } else {
            Ok(
                BattleState {
                    player_count: capped(self.player_count + 1, self.max_players),
                    ..self
                },
            )
        }
    }

    /// A player scoring a kill worth `reward`: only while the battle is open.
    /// Both totals stop at `max_total()`.
    pub open spec fn record_kill(self, reward: nat) -> Result<BattleState, GameError> {
        if !self.active {
            Err(GameError::GameNotActive)
        } else {
            Ok(
                BattleState {
                    total_zombie_kills: capped(self.total_zombie_kills + 1, max_total()),
                    total_points: capped(self.total_points + reward, max_total()),
                    ..self
                },
            )
        }
    }

    /// Closing the battle: only while it is open.
    pub open spec fn end(self) -> Result<BattleState, GameError> {
        if !self.active {
            Err(GameError::GameNotActive)
        } else {
            Ok(BattleState { active: false, ..self })
        }
    }

    /// Who may settle the room: the host, and anybody once a single player
    /// is left in it.
    pub open spec fn may_settle(self, payer: Identity) -> bool {
        payer == self.host || self.player_count == 1
    }

    /// Settling on the request of `payer`: only by one who may settle the
    /// room, and only once the battle has been closed. The state that goes
    /// back to the base layer is the state as it stands.
    pub open spec fn settle(self, payer: Identity) -> Result<BattleState, GameError> {
        if !self.may_settle(payer) {
            Err(GameError::InvalidAuth)
        } else if self.active {
            Err(GameError::GameAlreadyActive)
        } else {
            Ok(self)
        }
    }
}

impl Battle {
    /// The value of a room is one that a `Battle` can hold, and two rooms
    /// with the same value are the same room.
    pub proof fn lemma_view(a: Battle, b: Battle)
        ensures
            a@.wf(),
            a@ == b@ <==> a == b,
    {
    }

    /// The room `room_id` as `host` creates it.
    pub fn new(host: Identity, room_id: u64, max_players: u8) -> (battle: Battle)
        ensures
            battle@ == BattleState::created(host, room_id as nat, max_players as nat),
    {
        Battle {
            host,
            room_id,
            max_players,
            player_count: 0,
            total_zombie_kills: 0,
            total_points: 0,
            active: false,
        }
    }

    /// Opens the battle.
    pub fn start(&mut self) -> (r: Result<(), GameError>)
        ensures
            match old(self)@.start() {
                Ok(next) => r is Ok && final(self)@ == next,
                Err(e) => r == Err::<(), GameError>(e) && *final(self) == *old(self),
            },
    {
        if self.active {
            return Err(GameError::GameAlreadyActive);
        }
        self.active = true;
        self.player_count = self.player_count.checked_add(1).unwrap_or(u8::MAX);
        Ok(())
    }

    /// Lets one more player in.
    pub fn join(&mut self) -> (r: Result<(), GameError>)
        ensures
            match old(self)@.join() {
                Ok(next) => r is Ok && final(self)@ == next,
                Err(e) => r == Err::<(), GameError>(e) && *final(self) == *old(self),
            },
    {
        if !self.active {
            return Err(GameError::GameNotActive);
        }
        if self.player_count >= self.max_players {
            return Err(GameError::BattleRoomFull);
        }
        self.player_count = self.player_count.checked_add(1).unwrap_or(self.max_players);
        Ok(())
    }

    /// Scores a kill worth `reward`.
    pub fn record_kill(&mut self, reward: u64) -> (r: Result<(), GameError>)
        ensures
            match old(self)@.record_kill(reward as nat) {
                Ok(next) => r is Ok && final(self)@ == next,
                Err(e) => r == Err::<(), GameError>(e) && *final(self) == *old(self),
            },
    {
        if !self.active {
            return Err(GameError::GameNotActive);
        }
        self.total_zombie_kills = self.total_zombie_kills.saturating_add(1);
        self.total_points = self.total_points.saturating_add(reward);
        Ok(())
    }

    /// Closes the battle.
    pub fn end(&mut self) -> (r: Result<(), GameError>)
        ensures
            match old(self)@.end() {
                Ok(next) => r is Ok && final(self)@ == next,
                Err(e) => r == Err::<(), GameError>(e) && *final(self) == *old(self),
            },
    {
        if !self.active {
            return Err(GameError::GameNotActive);
        }
        self.active = false;
        Ok(())
    }

    /// Whether `payer` may settle the room.
    pub fn may_settle(&self, payer: &Identity) -> (allowed: bool)
        ensures
            allowed == self@.may_settle(*payer),
    {
        *payer == self.host || self.player_count == 1
    }
}

/// What `create_battle_account` works on.
#[derive(Clone, Copy, Debug, PartialEq, Eq)]
pub struct CreateBattle {
    /// The room that is set up.
    pub battle: Battle,
    /// The player who creates the room, and pays for it.
    pub host: Identity,
}

/// What `delegate_battle_account` works on.
#[derive(Clone, Copy, Debug, PartialEq, Eq)]
pub struct DelegateBattle {
    /// Who pays for the delegation.
    pub payer: Identity,
    /// The address of the room.
    pub pda: Identity,
}

/// What the calls of the host work on.
#[derive(Clone, Copy, Debug, PartialEq, Eq)]
pub struct BattleAction {
    /// The room.
    pub battle: Battle,
    /// Who signed the call.
    pub signer: Identity,
    /// The session token presented with the call, if any.
    pub session_token: Option<SessionToken>,
}

/// What the calls of the players work on.
#[derive(Clone, Copy, Debug, PartialEq, Eq)]
pub struct PlayerBattleAction {
    /// The room.
    pub battle: Battle,
    /// Who signed the call.
    pub signer: Identity,
    /// The player on whose behalf the call is made.
    pub authority: Identity,
    /// The session token presented with the call, if any.
    pub session_token: Option<SessionToken>,
}

/// What `commit_battle` works on.
#[derive(Clone, Copy, Debug, PartialEq, Eq)]
pub struct CommitBattle {
    /// Who asks for the settlement, and pays for it.
    pub payer: Identity,
    /// The room as it stands on the rollup layer.
    pub battle: Battle,
}

impl BattleAction {
    /// A battle is opened and closed by the host of the room.
    pub open spec fn spec_required_authority(&self) -> Authority {
        Authority::Exactly(self.battle.host)
    }

    /// A battle is opened and closed by the host of the room.
    #[verifier::when_used_as_spec(spec_required_authority)]
    pub fn required_authority(&self) -> (required: Authority)
        ensures
            required == self.spec_required_authority(),
    {
        Authority::Exactly(self.battle.host)
    }

    /// Whether the guard lets this call through.
    pub open spec fn authorized(&self) -> bool {
        authorized(self.signer, self.session_token, self.spec_required_authority())
    }
}

impl PlayerBattleAction {
    /// A player acts for the principal it declares.
    pub open spec fn spec_required_authority(&self) -> Authority {
        Authority::Declared(self.authority)
    }

    /// A player acts for the principal it declares.
    #[verifier::when_used_as_spec(spec_required_authority)]
    pub fn required_authority(&self) -> (required: Authority)
        ensures
            required == self.spec_required_authority(),
    {
        Authority::Declared(self.authority)
    }

    /// Whether the guard lets this call through.
    pub open spec fn authorized(&self) -> bool {
        authorized(self.signer, self.session_token, self.spec_required_authority())
    }
}

/// Sets up the room `room_id` for `max_players` players, with `ctx.host` as
/// its host: empty, closed, nothing scored.
pub fn create_battle_account(ctx: &mut CreateBattle, room_id: u64, max_players: u8) -> (r: Result<
    (),
    GameError,
>)
    ensures
        r is Ok,
        final(ctx).host == old(ctx).host,
        final(ctx).battle@ == BattleState::created(
            old(ctx).host,
            room_id as nat,
            max_players as nat,
        ),
{
    ctx.battle = Battle::new(ctx.host, room_id, max_players);
    Ok(())
}

/// Plans the handing of the room `room_id` to the rollup layer: under which
/// seeds the room's address is derived, and to which validator it goes (the
/// first of `remaining_accounts`, if there is one).
pub fn delegate_battle_account(
    ctx: &DelegateBattle,
    room_id: u64,
    remaining_accounts: &[Identity],
) -> (r: Result<Delegation, GameError>)
    ensures
        r matches Ok(delegation) && delegation@ == delegation_of(
            ctx.payer,
            ctx.pda,
            spec_battle_seeds(room_id),
            remaining_accounts@,
        ),
{
    Ok(Delegation::new(ctx.payer, ctx.pda, battle_seeds(room_id), remaining_accounts))
}

/// Opens the battle. The host takes the first slot.
pub fn start_multiplayer_battle(ctx: &mut BattleAction) -> (r: Result<(), GameError>)
    ensures
        final(ctx).signer == old(ctx).signer,
        final(ctx).session_token == old(ctx).session_token,
        match guarded(old(ctx).authorized(), old(ctx).battle@.start()) {
            Ok(next) => r is Ok && final(ctx).battle@ == next,
            Err(e) => r == Err::<(), GameError>(e) && final(ctx).battle == old(ctx).battle,
        },
{
    authorize(&ctx.signer, &ctx.session_token, &ctx.required_authority())?;
    ctx.battle.start()
}

/// Lets the calling player into the room.
pub fn join_battle(ctx: &mut PlayerBattleAction) -> (r: Result<(), GameError>)
    ensures
        final(ctx).signer == old(ctx).signer,
        final(ctx).authority == old(ctx).authority,
        final(ctx).session_token == old(ctx).session_token,
        match guarded(old(ctx).authorized(), old(ctx).battle@.join()) {
            Ok(next) => r is Ok && final(ctx).battle@ == next,
            Err(e) => r == Err::<(), GameError>(e) && final(ctx).battle == old(ctx).battle,
        },
{
    authorize(&ctx.signer, &ctx.session_token, &ctx.required_authority())?;
    ctx.battle.join()
}

/// Scores a kill worth `reward` for the room.
pub fn kill_zombie_battle(ctx: &mut PlayerBattleAction, reward: u64) -> (r: Result<(), GameError>)
    ensures
        final(ctx).signer == old(ctx).signer,
        final(ctx).authority == old(ctx).authority,
        final(ctx).session_token == old(ctx).session_token,
        match guarded(old(ctx).authorized(), old(ctx).battle@.record_kill(reward as nat)) {
            Ok(next) => r is Ok && final(ctx).battle@ == next,
            Err(e) => r == Err::<(), GameError>(e) && final(ctx).battle == old(ctx).battle,
        },
{
    authorize(&ctx.signer, &ctx.session_token, &ctx.required_authority())?;
    ctx.battle.record_kill(reward)
}

/// Closes the battle. The room stays on the rollup layer until
/// `commit_battle`.
pub fn end_battle(ctx: &mut BattleAction) -> (r: Result<(), GameError>)
    ensures
        final(ctx).signer == old(ctx).signer,
        final(ctx).session_token == old(ctx).session_token,
        match guarded(old(ctx).authorized(), old(ctx).battle@.end()) {
            Ok(next) => r is Ok && final(ctx).battle@ == next,
            Err(e) => r == Err::<(), GameError>(e) && final(ctx).battle == old(ctx).battle,
        },
{
    authorize(&ctx.signer, &ctx.session_token, &ctx.required_authority())?;
    ctx.battle.end()
}

/// Settles the room, if `ctx.payer` may and the battle has been closed:
/// returns the state that goes back to the base layer, which is the room as
/// it stands. A room whose battle is still open is not settled: `end_battle`
/// comes first.
pub fn commit_battle(ctx: &CommitBattle) -> (r: Result<Battle, GameError>)
    ensures
        match ctx.battle@.settle(ctx.payer) {
            Ok(state) => r matches Ok(committed) && committed@ == state,
            Err(e) => r == Err::<Battle, GameError>(e),
        },
{
    if !ctx.battle.may_settle(&ctx.payer) {
        return Err(GameError::InvalidAuth);
    }
    if ctx.battle.active {
        return Err(GameError::GameAlreadyActive);
    }
    Ok(ctx.battle)
}

} // verus!
