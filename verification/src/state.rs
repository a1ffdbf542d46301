//! Persistent records of the sale and of its participants.

use vstd::prelude::*;

verus! {

/// A 32-byte account address.
#[derive(Clone, Copy, Debug, PartialEq, Eq)]
pub struct Pubkey {
    pub bytes: [u8; 32],
}

impl Pubkey {
    /// The address made of `bytes`.
    pub fn new_from_array(bytes: [u8; 32]) -> (key: Pubkey)
        ensures
            key.bytes == bytes,
    {
        Pubkey { bytes }
    }

    /// The bytes of the address.
    pub fn to_bytes(&self) -> (bytes: [u8; 32])
        ensures
            bytes == self.bytes,
    {
        self.bytes
    }

    /// Byte-wise comparison of two addresses.
    pub fn same(&self, other: &Pubkey) -> (r: bool)
        ensures
            r == (*self == *other),
    {
        let mut i: usize = 0;
        while i < 32
            invariant
                i <= 32,
                forall|j: int| 0 <= j < i ==> self.bytes@[j] == other.bytes@[j],
            decreases 32 - i,
        {
            if self.bytes[i] != other.bytes[i] {
                return false;
            }
            i += 1;
        }
        assert(self.bytes@ =~= other.bytes@);
        assert(self.bytes == other.bytes);
        true
    }
}

/// The host's clock, read once per operation.
#[derive(Clone, Copy, Debug, PartialEq, Eq)]
pub struct Clock {
    pub unix_timestamp: i64,
}

/// One priced segment of the sale. Segments follow each other without gaps, the first
/// one beginning when the sale starts.
#[derive(Clone, Copy, Debug, PartialEq, Eq)]
pub struct PhaseDetail {
    pub phase: u8,
    /// Length of the segment in seconds.
    pub duration: i64,
    /// Price of one token, in the smallest unit of the paying currency.
    pub token_price: u64,
}

impl PhaseDetail {
    /// A segment has a length that is not negative and a price that can be divided by.
    pub open spec fn wf(&self) -> bool {
        self.duration >= 0 && self.token_price > 0
    }
}

/// Whether every segment is well formed and the segments can be numbered by a `u8`.
pub open spec fn valid_schedule(phases: Seq<PhaseDetail>) -> bool {
    &&& phases.len() <= 256
    &&& forall|i: int| 0 <= i < phases.len() ==> (#[trigger] phases[i]).wf()
}

/// Decides [`valid_schedule`].
pub fn check_schedule(phases: &Vec<PhaseDetail>) -> (ok: bool)
    ensures
        ok == valid_schedule(phases@),
{
    if phases.len() > 256 {
        return false;
    }
    let mut i: usize = 0;
    while i < phases.len()
        invariant
            i <= phases.len(),
            forall|j: int| 0 <= j < i ==> (#[trigger] phases@[j]).wf(),
        decreases phases.len() - i,
    {
        if phases[i].duration < 0 || phases[i].token_price == 0 {
            assert(!phases@[i as int].wf());
            return false;
        }
        i += 1;
    }
    true
}

/// The sale: its schedule, its cap and what has been sold against the cap.
#[derive(Clone, Debug, PartialEq, Eq)]
pub struct ICOState {
    pub start_timestamp: i64,
    /// A phase number kept with the record. Pricing does not read it: the phase of a
    /// purchase follows from the schedule and the clock alone.
    pub current_phase: u8,
    pub total_tokens_sold: u64,
    /// The schedule, fixed when the sale is started.
    pub phase_details: Vec<PhaseDetail>,
    /// The cap on `total_tokens_sold`.
    pub total_tokens_allocated: u64,
}

impl ICOState {
    /// The sale never holds more sold tokens than were allocated, and its schedule is valid.
    pub open spec fn wf(&self) -> bool {
        &&& self.total_tokens_sold <= self.total_tokens_allocated
        &&& valid_schedule(self.phase_details@)
    }

    /// Decides [`ICOState::wf`].
    pub fn is_well_formed(&self) -> (ok: bool)
        ensures
            ok == self.wf(),
    {
        self.total_tokens_sold <= self.total_tokens_allocated && check_schedule(
            &self.phase_details,
        )
    }
}

/// What one participant bought, the vesting window of the purchase and the rewards
/// accounted for so far.
#[derive(Clone, Copy, Debug, PartialEq, Eq)]
pub struct UserState {
    pub user: Pubkey,
    pub amount_purchased: u64,
    pub vesting_start_timestamp: i64,
    pub vesting_end_timestamp: i64,
    /// Up to when accrued rewards have been accounted for.
    pub last_reward_calculation_timestamp: i64,
    pub rewards_claimed: u64,
    /// Who referred this participant; fixed once set.
    pub referred_by: Option<Pubkey>,
}

impl UserState {
    /// The vesting window is not empty.
    pub open spec fn wf(&self) -> bool {
        self.vesting_start_timestamp < self.vesting_end_timestamp
    }
}

/// A reward amount that a participant is entitled to.
#[derive(Clone, Copy, Debug, PartialEq, Eq)]
pub struct RewardEntitlement {
    pub amount: u64,
}

} // verus!
