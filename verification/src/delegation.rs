//! Handing accounts to the rollup layer.
//!
//! An account lives on the base layer. To be played on, it is delegated to
//! the rollup layer; once play has ended it is settled, which brings its
//! state back and returns it to the base layer. It can then be delegated
//! again. This module plans a delegation: it says which account is handed
//! over, under which seeds its address is derived, and how the rollup layer
//! is to treat it. Carrying the plan out is the caller's part.

use vstd::prelude::*;
use vstd::bytes::{spec_u64_to_le_bytes, u64_to_le_bytes};
use crate::identity::Identity;

verus! {

/// The tag that begins the seeds of every profile: the bytes of `profile`.
pub open spec fn spec_profile_seed() -> Seq<u8> {
    seq![112u8, 114u8, 111u8, 102u8, 105u8, 108u8, 101u8]
}

/// The tag that begins the seeds of every battle room: the bytes of `battle`.
pub open spec fn spec_battle_seed() -> Seq<u8> {
    seq![98u8, 97u8, 116u8, 116u8, 108u8, 101u8]
}

/// The seeds of the profile of `authority`: the tag, then the owner's bytes.
pub open spec fn spec_profile_seeds(authority: Seq<u8>) -> Seq<Seq<u8>> {
    seq![spec_profile_seed(), authority]
}

/// The seeds of the battle room `room_id`: the tag, then the room's number
/// in eight bytes, lowest first.
pub open spec fn spec_battle_seeds(room_id: u64) -> Seq<Seq<u8>> {
    seq![spec_battle_seed(), spec_u64_to_le_bytes(room_id)]
}

/// The tag that begins the seeds of every profile.
pub fn profile_seed() -> (tag: Vec<u8>)
    ensures
        tag@ == spec_profile_seed(),
{
    let tag: Vec<u8> = vec![112u8, 114u8, 111u8, 102u8, 105u8, 108u8, 101u8];
    assert(tag@ =~= spec_profile_seed());
    tag
}

/// The tag that begins the seeds of every battle room.
pub fn battle_seed() -> (tag: Vec<u8>)
    ensures
        tag@ == spec_battle_seed(),
{
    let tag: Vec<u8> = vec![98u8, 97u8, 116u8, 116u8, 108u8, 101u8];
    assert(tag@ =~= spec_battle_seed());
    tag
}

/// The bytes of an identity, as a seed.
fn identity_seed(id: &Identity) -> (seed: Vec<u8>)
    ensures
        seed@ == id@,
{
    let mut seed: Vec<u8> = Vec::new();
    let mut i: usize = 0;
    while i < 32
        invariant
            i <= 32,
            seed@.len() == i,
            forall|j: int| 0 <= j < i ==> seed@[j] == id.bytes[j],
        decreases 32 - i,
    {
        seed.push(id.bytes[i]);
        i += 1;
    }
    assert(seed@ =~= id@);
    seed
}

/// The two seeds `first` and `second`, in this order.
fn seed_pair(first: Vec<u8>, second: Vec<u8>) -> (seeds: Vec<Vec<u8>>)
    ensures
        seeds.deep_view() == seq![first@, second@],
{
    let mut seeds: Vec<Vec<u8>> = Vec::new();
    seeds.push(first);
    seeds.push(second);
    assert(seeds.deep_view() =~~= seq![first@, second@]);
    seeds
}

/// The seeds of the profile of `authority`.
pub fn profile_seeds(authority: &Identity) -> (seeds: Vec<Vec<u8>>)
    ensures
        seeds.deep_view() == spec_profile_seeds(authority@),
{
    seed_pair(profile_seed(), identity_seed(authority))
}

/// The seeds of the battle room `room_id`.
pub fn battle_seeds(room_id: u64) -> (seeds: Vec<Vec<u8>>)
    ensures
        seeds.deep_view() == spec_battle_seeds(room_id),
{
    seed_pair(battle_seed(), u64_to_le_bytes(room_id))
}

/// How the rollup layer is to treat a delegated account.
#[derive(Clone, Copy, Debug, PartialEq, Eq)]
pub struct DelegateConfig {
    /// How often the rollup layer commits the account on its own, in
    /// milliseconds.
    pub commit_frequency_ms: u32,
    /// The validator that the account is delegated to; `None` leaves the
    /// choice to the delegation program.
    pub validator: Option<Identity>,
}

/// The commit frequency of a delegation that does not ask for one.
pub open spec fn default_commit_frequency_ms() -> u32 {
    u32::MAX
}

/// The configuration of a delegation that asks for nothing in particular.
///
/// Trusted: the body is `ephemeral_rollups_sdk::cpi::DelegateConfig::default()`,
/// copied field by field. The contract states what that function returns:
/// the largest commit frequency, and no validator.
#[verifier::external_body]
fn default_delegate_config() -> (config: DelegateConfig)
    ensures
        config.commit_frequency_ms == default_commit_frequency_ms(),
        config.validator is None,
{
    let config = ephemeral_rollups_sdk::cpi::DelegateConfig::default();
    DelegateConfig {
        commit_frequency_ms: config.commit_frequency_ms,
        validator: match config.validator {
            Some(key) => Some(Identity { bytes: key.to_bytes() }),
            None => None,
        },
    }
}

/// A planned delegation.
#[derive(Clone, Debug, PartialEq, Eq)]
pub struct Delegation {
    /// Who pays for the delegation.
    pub payer: Identity,
    /// The address of the account that is handed over.
    pub pda: Identity,
    /// The seeds under which that address is derived.
    pub seeds: Vec<Vec<u8>>,
    /// How the rollup layer is to treat the account.
    pub config: DelegateConfig,
}

/// A planned delegation as a mathematical value.
pub struct DelegationPlan {
    pub payer: Identity,
    pub pda: Identity,
    pub seeds: Seq<Seq<u8>>,
    pub config: DelegateConfig,
}

impl View for Delegation {
    type V = DelegationPlan;

    open spec fn view(&self) -> DelegationPlan {
        DelegationPlan {
            payer: self.payer,
            pda: self.pda,
            seeds: self.seeds.deep_view(),
            config: self.config,
        }
    }
}

/// The validator that a delegation goes to: the first of the accounts that
/// come with the call beyond those it names, if there is one.
pub open spec fn chosen_validator(remaining_accounts: Seq<Identity>) -> Option<Identity> {
    if remaining_accounts.len() > 0 {
        Some(remaining_accounts[0])
    } else {
        None
    }
}

/// The delegation of the account at `pda`, paid by `payer`: default
/// configuration, but for the validator.
pub open spec fn delegation_of(
    payer: Identity,
    pda: Identity,
    seeds: Seq<Seq<u8>>,
    remaining_accounts: Seq<Identity>,
) -> DelegationPlan {
    DelegationPlan {
        payer,
        pda,
        seeds,
        config: DelegateConfig {
            commit_frequency_ms: default_commit_frequency_ms(),
            validator: chosen_validator(remaining_accounts),
        },
    }
}

impl Delegation {
    /// Plans the delegation of the account at `pda`, paid by `payer`.
    pub fn new(
        payer: Identity,
        pda: Identity,
        seeds: Vec<Vec<u8>>,
        remaining_accounts: &[Identity],
    ) -> (delegation: Delegation)
        ensures
            delegation@ == delegation_of(payer, pda, seeds.deep_view(), remaining_accounts@),
    {
        let validator = match remaining_accounts.first() {
            Some(account) => Some(*account),
            None => None,
        };
        let defaults = default_delegate_config();
        let config = DelegateConfig { validator, ..defaults };
        Delegation { payer, pda, seeds, config }
    }
}

} // verus!
