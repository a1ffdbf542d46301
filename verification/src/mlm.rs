//! Tier levels of participants and the bonus that a level earns.

use crate::state::Pubkey;
use crate::vesting::{determine_sale_level, sale_level};
use vstd::prelude::*;

verus! {

/// Bonus units that every tier level adds to a claim.
pub const TIER_REWARD: u64 = 100;

/// A participant's place in the tier ledger.
#[derive(Clone, Copy, Debug, PartialEq, Eq)]
pub struct MLMParticipant {
    pub user: Pubkey,
    /// The tier level: 1 when the participant joins, and it only ever rises.
    pub level: u8,
    /// A running total kept with the record; it starts at zero, and no operation of
    /// the ledger changes it afterwards.
    pub rewards_earned: u64,
}

impl MLMParticipant {
    /// A participant is at level 1 at least.
    pub open spec fn wf(&self) -> bool {
        self.level >= 1
    }
}

/// The bonus that a tier level adds to a claim.
pub open spec fn tier_bonus(level: u8) -> int {
    level * TIER_REWARD
}

/// The operations of the tier ledger.
pub struct MLMStrategy;

impl MLMStrategy {
    /// Enters `user` into the tier ledger at level 1 with nothing earned.
    pub fn initialize_participant(participant: &mut MLMParticipant, user: Pubkey)
        ensures
            *final(participant) == (MLMParticipant { user, level: 1, rewards_earned: 0 }),
            final(participant).wf(),
    {
        participant.user = user;
        participant.level = 1;
        participant.rewards_earned = 0;
    }

    /// The bonus that the participant's level adds to a claim.
    pub fn calculate_rewards(participant: &MLMParticipant) -> (rewards: u64)
        ensures
            rewards == tier_bonus(participant.level),
    {
        participant.level as u64 * TIER_REWARD
    }

    /// Raises the participant to the level that the sale has reached at `now`, if that
    /// is above the participant's own. A level never falls.
    pub fn advance_level(participant: &mut MLMParticipant, sale_start_timestamp: i64, now: i64)
        ensures
            final(participant).level == if old(participant).level >= sale_level(
                sale_start_timestamp,
                now,
            ) {
                old(participant).level as int
            } else {
                sale_level(sale_start_timestamp, now)
            },
            final(participant).level >= old(participant).level,
            final(participant).wf(),
            final(participant).user == old(participant).user,
            final(participant).rewards_earned == old(participant).rewards_earned,
    {
        let reached = determine_sale_level(sale_start_timestamp, now);
        if reached > participant.level {
            participant.level = reached;
        }
    }
}

} // verus!
