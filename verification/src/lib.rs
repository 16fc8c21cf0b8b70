//! The rules of a zombie game whose accounts move between two layers.
//!
//! A player's profile and a battle room live on a slow, durable base layer.
//! To be played on they are delegated to a fast rollup layer, and when play
//! has ended they are settled: their state goes back to the base layer. This
//! library decides every step of that life: who may make a call (`auth`), what
//! the call does to a profile (`profile`) or to a room (`battle`), and what is
//! handed over when an account changes layers (`delegation`). `laws` states
//! what runs of calls come to.
//!
//! The library holds no account and talks to no ledger. Each call takes the
//! state it works on, with the caller's identity and the session token it
//! presents, and returns the new state or the error with which the call is
//! turned down.

pub mod auth;
pub mod battle;
pub mod delegation;
pub mod error;
pub mod identity;
pub mod laws;
pub mod limits;
pub mod profile;

pub use auth::{authorize, Authority, SessionToken};
pub use battle::{
    commit_battle, create_battle_account, delegate_battle_account, end_battle, join_battle,
    kill_zombie_battle, start_multiplayer_battle, Battle, BattleAction, CommitBattle,
    CreateBattle, DelegateBattle, PlayerBattleAction,
};
pub use delegation::{
    battle_seed, battle_seeds, profile_seed, profile_seeds, DelegateConfig, Delegation,
};
pub use error::GameError;
pub use identity::Identity;
pub use profile::{
    delegate_game, end_game, initialize_profile, kill_zombie, start_game, stored_profile,
    undelegate_game, CommitProfile, DelegateProfile, GameAction, InitializeProfile, Profile,
};
