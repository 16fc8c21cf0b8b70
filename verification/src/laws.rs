//! What holds of every run of calls.
//!
//! The calls of this library are single steps. The laws below say what runs
//! of steps come to: that scores add up and stop at the largest value, that a
//! room takes as many players as it was made for, that a session cannot be
//! opened twice, and that settling and delegating again loses nothing.
//!
//! A run is a run of calls that the guard let through. A call that the guard
//! turns down returns `InvalidAuth` and changes nothing, as a call does that
//! is rejected for the state it finds: to the state, a run with such calls in
//! it is the run without them.

use vstd::prelude::*;
use vstd::bytes::{lemma_auto_spec_u64_to_from_le_bytes, spec_u64_to_le_bytes};
use crate::auth::guarded;
use crate::battle::BattleState;
use crate::delegation::{spec_battle_seeds, spec_profile_seeds};
use crate::error::GameError;
use crate::identity::Identity;
use crate::limits::{capped, max_player_count, max_points, max_total};
use crate::profile::ProfileState;

verus! {

/// The state after a call: the one that the step gives, or the state before
/// the call where the step is rejected.
pub open spec fn after<S>(before: S, step: Result<S, GameError>) -> S {
    match step {
        Ok(next) => next,
        Err(_) => before,
    }
}

/// The sum of a run of rewards.
pub open spec fn total(rewards: Seq<nat>) -> nat
    decreases rewards.len(),
{
    if rewards.len() == 0 {
        0
    } else {
        total(rewards.drop_last()) + rewards.last()
    }
}

/// A call on a profile.
pub enum ProfileCall {
    StartGame,
    KillZombie(nat),
    EndGame,
    Settle,
}

/// A call on a battle room.
pub enum BattleCall {
    Start,
    Join,
    RecordKill(nat),
    End,
    Settle(Identity),
}

impl ProfileState {
    /// What `call` does to the profile.
    pub open spec fn call(self, call: ProfileCall) -> Result<ProfileState, GameError> {
        match call {
            ProfileCall::StartGame => self.start_game(),
            ProfileCall::KillZombie(reward) => self.kill_zombie(reward),
            ProfileCall::EndGame => self.end_game(),
            ProfileCall::Settle => Ok(self.settle()),
        }
    }

    /// The profile after a run of calls.
    pub open spec fn after_calls(self, calls: Seq<ProfileCall>) -> ProfileState
        decreases calls.len(),
    {
        if calls.len() == 0 {
            self
        } else {
            let so_far = self.after_calls(calls.drop_last());
            after(so_far, so_far.call(calls.last()))
        }
    }

    /// The profile after a run of kills, one for each of `rewards`.
    pub open spec fn after_kills(self, rewards: Seq<nat>) -> ProfileState
        decreases rewards.len(),
    {
        if rewards.len() == 0 {
            self
        } else {
            let so_far = self.after_kills(rewards.drop_last());
            after(so_far, so_far.kill_zombie(rewards.last()))
        }
    }

    /// The profile after a whole session: opened, played for `rewards`,
    /// closed.
    pub open spec fn after_session(self, rewards: Seq<nat>) -> ProfileState {
        let played = after(self, self.start_game()).after_kills(rewards);
        after(played, played.end_game())
    }
}

impl BattleState {
    /// What `call` does to the room.
    pub open spec fn call(self, call: BattleCall) -> Result<BattleState, GameError> {
        match call {
            BattleCall::Start => self.start(),
            BattleCall::Join => self.join(),
            BattleCall::RecordKill(reward) => self.record_kill(reward),
            BattleCall::End => self.end(),
            BattleCall::Settle(payer) => self.settle(payer),
        }
    }

    /// The room after a run of calls.
    pub open spec fn after_calls(self, calls: Seq<BattleCall>) -> BattleState
        decreases calls.len(),
    {
        if calls.len() == 0 {
            self
        } else {
            let so_far = self.after_calls(calls.drop_last());
            after(so_far, so_far.call(calls.last()))
        }
    }

    /// The room after `attempts` players have tried to join, one after the
    /// other.
    pub open spec fn after_joins(self, attempts: nat) -> BattleState
        decreases attempts,
    {
        if attempts == 0 {
            self
        } else {
            let so_far = self.after_joins((attempts - 1) as nat);
            after(so_far, so_far.join())
        }
    }

    /// The room after a run of kills, one for each of `rewards`.
    pub open spec fn after_kills(self, rewards: Seq<nat>) -> BattleState
        decreases rewards.len(),
    {
        if rewards.len() == 0 {
            self
        } else {
            let so_far = self.after_kills(rewards.drop_last());
            after(so_far, so_far.record_kill(rewards.last()))
        }
    }

    /// The room after a whole battle: opened, `attempts` players trying to
    /// join, played for `rewards`, closed.
    pub open spec fn after_battle(self, attempts: nat, rewards: Seq<nat>) -> BattleState {
        let played = after(self, self.start()).after_joins(attempts).after_kills(rewards);
        after(played, played.end())
    }

    /// Whether this is the room `other`, at the same or another time: same
    /// host, same number, same capacity.
    pub open spec fn same_room(self, other: BattleState) -> bool {
        &&& self.host == other.host
        &&& self.room_id == other.room_id
        &&& self.max_players == other.max_players
    }

    /// Whether no count and no total of this room is below that of `other`.
    pub open spec fn no_less_than(self, other: BattleState) -> bool {
        &&& self.player_count >= other.player_count
        &&& self.total_zombie_kills >= other.total_zombie_kills
        &&& self.total_points >= other.total_points
    }
}

/// The sum of two runs of rewards, one after the other, is the sum of their
/// sums.
pub proof fn lemma_total_of_runs(first: Seq<nat>, second: Seq<nat>)
    ensures
        total(first + second) == total(first) + total(second),
    decreases second.len(),
{
    if second.len() == 0 {
        assert(first + second =~= first);
    } else {
        assert((first + second).drop_last() =~= first + second.drop_last());
        lemma_total_of_runs(first, second.drop_last());
    }
}

// ---------------------------------------------------------------------------
// Profiles
// ---------------------------------------------------------------------------

/// Whatever is done to a profile, it keeps its owner, its score never goes
/// down, and it stays a profile that a `Profile` can hold: a score never
/// passes the largest score.
pub proof fn lemma_profile_runs(profile: ProfileState, calls: Seq<ProfileCall>)
    requires
        profile.wf(),
    ensures
        profile.after_calls(calls).wf(),
        profile.after_calls(calls).authority == profile.authority,
        profile.after_calls(calls).points >= profile.points,
    decreases calls.len(),
{
    if calls.len() > 0 {
        lemma_profile_runs(profile, calls.drop_last());
    }
}

/// In a session, kills add up: after a run of kills the score is the score
/// before it plus the sum of the rewards, or the largest score where that is
/// beyond it. Every kill of the run is accepted, and the run leaves the
/// session open and the owner as it was.
pub proof fn lemma_kills_add_up(profile: ProfileState, rewards: Seq<nat>)
    requires
        profile.wf(),
        profile.game_active,
    ensures
        profile.after_kills(rewards) == (ProfileState {
            points: capped(profile.points + total(rewards), max_points()),
            ..profile
        }),
        profile.after_kills(rewards).points <= max_points(),
        forall|i: int|
            0 <= i < rewards.len() ==> (#[trigger] profile.after_kills(
                rewards.take(i),
            )).kill_zombie(rewards[i]) is Ok,
    decreases rewards.len(),
{
    if rewards.len() > 0 {
        lemma_kills_add_up(profile, rewards.drop_last());
    }
    assert forall|i: int| 0 <= i < rewards.len() implies (#[trigger] profile.after_kills(
        rewards.take(i),
    )).kill_zombie(rewards[i]) is Ok by {
        lemma_kills_add_up(profile, rewards.take(i));
    }
}

/// A session cannot be opened twice: after `start_game`, the next
/// `start_game` is rejected with `GameAlreadyActive` and changes nothing,
/// whoever of those that the guard lets through makes it.
pub proof fn lemma_second_start_rejected(profile: ProfileState)
    ensures
        ({
            let started = after(profile, profile.start_game());
            &&& started.game_active
            &&& started.start_game() == Err::<ProfileState, GameError>(
                GameError::GameAlreadyActive,
            )
            &&& guarded(true, started.start_game()) == Err::<ProfileState, GameError>(
                GameError::GameAlreadyActive,
            )
            &&& after(started, started.start_game()) == started
        }),
{
}

/// Out of session nothing is scored: `kill_zombie` on an idle profile is
/// rejected with `GameNotActive` and changes nothing, for every caller that
/// the guard lets through.
pub proof fn lemma_idle_kill_rejected(profile: ProfileState, reward: nat)
    requires
        !profile.game_active,
    ensures
        profile.kill_zombie(reward) == Err::<ProfileState, GameError>(GameError::GameNotActive),
        guarded(true, profile.kill_zombie(reward)) == Err::<ProfileState, GameError>(
            GameError::GameNotActive,
        ),
        after(profile, profile.kill_zombie(reward)) == profile,
{
}

/// Settling and delegating again loses nothing. A profile that is played for
/// a session and settled goes back to the base layer with the score of that
/// session; a second session, after the profile has been delegated again,
/// adds to it. The two sessions come to what one session with all the kills
/// comes to.
pub proof fn lemma_profile_round_trip(profile: ProfileState, first: Seq<nat>, second: Seq<nat>)
    requires
        profile.wf(),
    ensures
        ({
            let settled = profile.after_session(first).settle();
            &&& settled == (ProfileState {
                points: capped(profile.points + total(first), max_points()),
                game_active: false,
                ..profile
            })
            &&& settled.after_session(second) == (ProfileState {
                points: capped(profile.points + total(first) + total(second), max_points()),
                game_active: false,
                ..profile
            })
            &&& settled.after_session(second) == profile.after_session(first + second)
        }),
{
    let started = after(profile, profile.start_game());
    lemma_kills_add_up(started, first);
    let settled = profile.after_session(first).settle();
    let restarted = after(settled, settled.start_game());
    lemma_kills_add_up(restarted, second);
    lemma_kills_add_up(started, first + second);
    lemma_total_of_runs(first, second);
}

// ---------------------------------------------------------------------------
// Battle rooms
// ---------------------------------------------------------------------------

/// Whatever is done to a room, it keeps its host, its number and its
/// capacity, no count and no total of it goes down, and it stays a room that
/// a `Battle` can hold: no count and no total passes its largest value.
pub proof fn lemma_battle_runs(room: BattleState, calls: Seq<BattleCall>)
    requires
        room.wf(),
    ensures
        room.after_calls(calls).wf(),
        room.after_calls(calls).same_room(room),
        room.after_calls(calls).no_less_than(room),
    decreases calls.len(),
{
    if calls.len() > 0 {
        lemma_battle_runs(room, calls.drop_last());
    }
}

/// Whatever is done to a room but opening it, the players in it keep their
/// slots: if there were no more players than the room takes, there are no
/// more after any run of joining, scoring, closing and settling.
pub proof fn lemma_capacity_kept(room: BattleState, calls: Seq<BattleCall>)
    requires
        room.within_capacity(),
        forall|i: int| 0 <= i < calls.len() ==> !(#[trigger] calls[i] is Start),
    ensures
        room.after_calls(calls).within_capacity(),
    decreases calls.len(),
{
    if calls.len() > 0 {
        lemma_capacity_kept(room, calls.drop_last());
    }
}

/// An open room fills up to its capacity and no further. After `attempts`
/// players have tried to join, the room holds the players it held plus one
/// for each attempt, or as many as it takes where that is beyond it, and
/// nothing else about the room has changed. The next attempt is accepted if
/// a slot is left, and rejected with `BattleRoomFull` if none is. A room that
/// holds more players than it takes lets nobody in.
pub proof fn lemma_joins_fill_room(room: BattleState, attempts: nat)
    requires
        room.active,
    ensures
        room.after_joins(attempts) == (BattleState {
            player_count: if room.within_capacity() {
                capped(room.player_count + attempts, room.max_players)
            } else {
                room.player_count
            },
            ..room
        }),
        room.within_capacity() ==> room.after_joins(attempts).within_capacity(),
        room.wf() ==> room.after_joins(attempts).wf(),
        room.player_count + attempts < room.max_players ==> room.after_joins(attempts).join()
            is Ok,
        room.player_count + attempts >= room.max_players ==> room.after_joins(attempts).join()
            == Err::<BattleState, GameError>(GameError::BattleRoomFull),
    decreases attempts,
{
    if attempts > 0 {
        lemma_joins_fill_room(room, (attempts - 1) as nat);
    }
}

/// A room made for `max_players` players, one at least, takes exactly that
/// many. Opening it gives the host the first slot. Of the players who then
/// try to join, one after the other, the first `max_players - 1` are let in
/// and every later one is rejected with `BattleRoomFull`. Whatever else is
/// done to the room until it is opened again, there are never more players
/// in it than it was made for.
pub proof fn lemma_room_takes_its_capacity(
    host: Identity,
    room_id: u64,
    max_players: nat,
    attempts: nat,
    calls: Seq<BattleCall>,
)
    requires
        1 <= max_players <= max_player_count(),
        forall|i: int| 0 <= i < calls.len() ==> !(#[trigger] calls[i] is Start),
    ensures
        ({
            let created = BattleState::created(host, room_id as nat, max_players);
            let started = after(created, created.start());
            let room = started.after_joins(attempts);
            &&& created.start() is Ok
            &&& started.player_count == 1
            &&& room.player_count == capped(1 + attempts, max_players)
            &&& 1 + attempts < max_players ==> room.join() is Ok
            &&& 1 + attempts >= max_players ==> room.join() == Err::<BattleState, GameError>(
                GameError::BattleRoomFull,
            )
            &&& started.after_calls(calls).player_count <= max_players
            &&& started.after_calls(calls).max_players == max_players
        }),
{
    let created = BattleState::created(host, room_id as nat, max_players);
    let started = after(created, created.start());
    lemma_joins_fill_room(started, attempts);
    lemma_capacity_kept(started, calls);
    lemma_battle_runs(started, calls);
}

/// While a battle is open, kills add up: after a run of kills the number of
/// kills has grown by the length of the run and the points by the sum of the
/// rewards, each stopping at the largest total. Every kill of the run is
/// accepted, and nothing else about the room has changed.
pub proof fn lemma_battle_kills_add_up(room: BattleState, rewards: Seq<nat>)
    requires
        room.wf(),
        room.active,
    ensures
        room.after_kills(rewards) == (BattleState {
            total_zombie_kills: capped(room.total_zombie_kills + rewards.len(), max_total()),
            total_points: capped(room.total_points + total(rewards), max_total()),
            ..room
        }),
        forall|i: int|
            0 <= i < rewards.len() ==> (#[trigger] room.after_kills(rewards.take(i))).record_kill(
                rewards[i],
            ) is Ok,
    decreases rewards.len(),
{
    if rewards.len() > 0 {
        lemma_battle_kills_add_up(room, rewards.drop_last());
    }
    assert forall|i: int| 0 <= i < rewards.len() implies (#[trigger] room.after_kills(
        rewards.take(i),
    )).record_kill(rewards[i]) is Ok by {
        lemma_battle_kills_add_up(room, rewards.take(i));
    }
}

/// A closed room is frozen: nobody joins it, nothing is scored in it, and it
/// cannot be closed again. Each of these calls is rejected with
/// `GameNotActive` and changes nothing. Opening and settling are the calls
/// that a closed room takes.
pub proof fn lemma_closed_room_is_frozen(room: BattleState, reward: nat)
    requires
        !room.active,
    ensures
        room.join() == Err::<BattleState, GameError>(GameError::GameNotActive),
        room.record_kill(reward) == Err::<BattleState, GameError>(GameError::GameNotActive),
        room.end() == Err::<BattleState, GameError>(GameError::GameNotActive),
        after(room, room.join()) == room,
        after(room, room.record_kill(reward)) == room,
        after(room, room.end()) == room,
        room.start() is Ok,
{
}

/// Who may settle a room, and when. Its host may, and anybody may when one
/// player is in the room; whoever else asks is turned down with
/// `InvalidAuth`, whether the battle is open or closed. Of those who may,
/// none settles a room whose battle is still open: that is rejected with
/// `GameAlreadyActive`. A settlement that is accepted sends the room back as
/// it stands, and a rejected one changes nothing.
pub proof fn lemma_who_may_settle(room: BattleState, payer: Identity)
    ensures
        payer == room.host && !room.active ==> room.settle(payer) == Ok::<
            BattleState,
            GameError,
        >(room),
        room.player_count == 1 && !room.active ==> room.settle(payer) == Ok::<
            BattleState,
            GameError,
        >(room),
        payer != room.host && room.player_count != 1 ==> room.settle(payer) == Err::<
            BattleState,
            GameError,
        >(GameError::InvalidAuth),
        (payer == room.host || room.player_count == 1) && room.active ==> room.settle(payer)
            == Err::<BattleState, GameError>(GameError::GameAlreadyActive),
        after(room, room.settle(payer)) == room,
{
}

/// Closing comes before settling. While a battle is open its host cannot
/// settle the room; once `end` has been accepted the host can, and the room
/// goes back closed, with the players and totals it had when it was closed.
pub proof fn lemma_settlement_follows_end(room: BattleState)
    requires
        room.active,
    ensures
        room.settle(room.host) == Err::<BattleState, GameError>(GameError::GameAlreadyActive),
        room.end() is Ok,
        ({
            let ended = after(room, room.end());
            &&& ended == (BattleState { active: false, ..room })
            &&& ended.settle(room.host) == Ok::<BattleState, GameError>(ended)
        }),
{
}

/// Settling and delegating again loses nothing. A room that is played for a
/// battle and settled by its host goes back to the base layer with the
/// players and totals of that battle; a second battle, after the room has
/// been delegated again, adds to them.
pub proof fn lemma_battle_round_trip(
    room: BattleState,
    attempts: nat,
    first: Seq<nat>,
    second: Seq<nat>,
)
    requires
        room.wf(),
    ensures
        ({
            let joined = after(room, room.start()).after_joins(attempts);
            let played = room.after_battle(attempts, first);
            let settled = after(played, played.settle(room.host));
            let again = settled.after_battle(0, second);
            &&& played.settle(room.host) == Ok::<BattleState, GameError>(played)
            &&& settled == (BattleState {
                active: false,
                total_zombie_kills: capped(room.total_zombie_kills + first.len(), max_total()),
                total_points: capped(room.total_points + total(first), max_total()),
                ..joined
            })
            &&& again == (BattleState {
                player_count: capped(settled.player_count + 1, max_player_count()),
                total_zombie_kills: capped(
                    room.total_zombie_kills + first.len() + second.len(),
                    max_total(),
                ),
                total_points: capped(
                    room.total_points + total(first) + total(second),
                    max_total(),
                ),
                ..settled
            })
            &&& settled.same_room(room) && settled.no_less_than(room)
            &&& again.same_room(room) && again.no_less_than(settled)
        }),
{
    let started = after(room, room.start());
    lemma_joins_fill_room(started, attempts);
    let joined = started.after_joins(attempts);
    lemma_battle_kills_add_up(joined, first);
    let played = room.after_battle(attempts, first);
    let settled = after(played, played.settle(room.host));
    let restarted = after(settled, settled.start());
    assert(restarted.after_joins(0) == restarted);
    lemma_battle_kills_add_up(restarted, second);
}

// ---------------------------------------------------------------------------
// Addresses
// ---------------------------------------------------------------------------

/// Seeds tell accounts apart. Two profiles have the same seeds only if they
/// have the same owner, two rooms only if they have the same number, and no
/// profile has the seeds of a room.
pub proof fn lemma_seeds_tell_accounts_apart(
    owner: Identity,
    other_owner: Identity,
    room_id: u64,
    other_room_id: u64,
)
    ensures
        spec_profile_seeds(owner@) == spec_profile_seeds(other_owner@) <==> owner == other_owner,
        spec_battle_seeds(room_id) == spec_battle_seeds(other_room_id) <==> room_id
            == other_room_id,
        spec_profile_seeds(owner@) != spec_battle_seeds(room_id),
{
    Identity::lemma_view_injective(owner, other_owner);
    lemma_auto_spec_u64_to_from_le_bytes();
    assert(spec_profile_seeds(owner@)[1] == owner@);
    assert(spec_profile_seeds(other_owner@)[1] == other_owner@);
    assert(spec_battle_seeds(room_id)[1] == spec_u64_to_le_bytes(room_id));
    assert(spec_battle_seeds(other_room_id)[1] == spec_u64_to_le_bytes(other_room_id));
    assert(spec_profile_seeds(owner@)[0].len() == 7);
    assert(spec_battle_seeds(room_id)[0].len() == 6);
}

} // verus!
