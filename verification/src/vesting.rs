//! Vesting of purchases and the rewards that participants claim.

use crate::accrual::{
    accrued_compound, accrued_linear, compound_interest, lemma_compound_interest_increases,
    linear_interest,
};
use crate::mlm::{tier_bonus, MLMParticipant, MLMStrategy};
use crate::state::{Pubkey, UserState};
use vstd::prelude::*;

verus! {

/// Seconds from a purchase to the maturity of its rewards: two years of 365 days.
pub const VESTING_DURATION: i64 = 63_072_000;

/// At maturity a participant is entitled to this many reward units per token bought.
pub const REWARD_MULTIPLIER: u64 = 40;

/// Reward units credited for a confirmed referral.
pub const REFERRAL_REWARD: u64 = 10;

/// Seconds that the sale spends on each level: fifteen days.
pub const LEVEL_DURATION: i64 = 1_296_000;

/// The highest level of the sale.
pub const MAX_LEVEL: u8 = 5;

/// Why a vesting operation was refused. A refused operation leaves every record as it was.
#[derive(Clone, Copy, Debug, PartialEq, Eq, Structural)]
pub enum ErrorCode {
    /// The vesting period has not been completed.
    VestingPeriodNotCompleted,
    /// No rewards available to claim.
    NoRewardsAvailable,
    /// The recorded referrer is not the one named.
    InvalidReferral,
    /// The participant already has a referrer.
    AlreadyReferred,
    /// A participant cannot be their own referrer.
    SelfReferral,
    /// The ledger did not carry out the transfer.
    TransferFailed,
    /// The records handed in do not belong to the participant named.
    AccountNotFound,
    /// The participant already has a vesting record.
    DuplicateInitialization,
}

impl ErrorCode {
    /// The text shown to a caller for this failure.
    pub fn message(&self) -> (text: &'static str)
        ensures
            text@ == match *self {
                ErrorCode::VestingPeriodNotCompleted =>
                    "The vesting period has not been completed."@,
                ErrorCode::NoRewardsAvailable => "No rewards available to claim."@,
                ErrorCode::InvalidReferral => "Invalid referral."@,
                ErrorCode::AlreadyReferred => "The participant already has a referrer."@,
                ErrorCode::SelfReferral => "A participant cannot refer themselves."@,
                ErrorCode::TransferFailed => "The transfer failed."@,
                ErrorCode::AccountNotFound => "Account not found."@,
                ErrorCode::DuplicateInitialization => "The account is already initialized."@,
            },
    {
        match self {
            ErrorCode::VestingPeriodNotCompleted => "The vesting period has not been completed.",
            ErrorCode::NoRewardsAvailable => "No rewards available to claim.",
            ErrorCode::InvalidReferral => "Invalid referral.",
            ErrorCode::AlreadyReferred => "The participant already has a referrer.",
            ErrorCode::SelfReferral => "A participant cannot refer themselves.",
            ErrorCode::TransferFailed => "The transfer failed.",
            ErrorCode::AccountNotFound => "Account not found.",
            ErrorCode::DuplicateInitialization => "The account is already initialized.",
        }
    }
}

/// The level that the sale has reached at `now`: level 1 until fifteen days after the
/// start, one level more for every further fifteen days, and level 5 from then on.
pub open spec fn sale_level(sale_start_timestamp: i64, now: i64) -> int {
    if now <= sale_start_timestamp {
        1
    } else {
        let windows = (now - sale_start_timestamp) / 1_296_000;
        if windows >= 4 {
            5
        } else {
            windows + 1
        }
    }
}

/// The level of the sale at `now`.
pub fn determine_sale_level(sale_start_timestamp: i64, now: i64) -> (level: u8)
    ensures
        level == sale_level(sale_start_timestamp, now),
        1 <= level <= MAX_LEVEL,
{
    if now <= sale_start_timestamp {
        return 1;
    }
    let elapsed_time: i128 = now as i128 - sale_start_timestamp as i128;
    let current_level: i128 = elapsed_time / (LEVEL_DURATION as i128);
    if current_level >= 4 {
        MAX_LEVEL
    } else {
        (current_level + 1) as u8
    }
}

/// The level of the sale never falls as time goes by.
pub proof fn lemma_sale_level_never_falls(sale_start_timestamp: i64, earlier: i64, later: i64)
    requires
        earlier <= later,
    ensures
        1 <= sale_level(sale_start_timestamp, earlier) <= sale_level(sale_start_timestamp, later)
            <= 5,
{
}

/// Tokens pledged for `amount_usd` at a level of the sale: twice the amount at level 1,
/// 1.75, 1.5 and 1.25 times at levels 2 to 4, rounded down, the amount itself at level
/// 5, and nothing at any other level.
pub open spec fn pledge_tokens(amount_usd: u64, sale_level: u8) -> int {
    if sale_level == 1 {
        amount_usd * 2
    } else if sale_level == 2 {
        amount_usd * 175 / 100
    } else if sale_level == 3 {
        amount_usd * 15 / 10
    } else if sale_level == 4 {
        amount_usd * 125 / 100
    } else if sale_level == 5 {
        amount_usd as int
    } else {
        0
    }
}

fn pledge_tokens_wide(amount_usd: u64, sale_level: u8) -> (tokens: u128)
    ensures
        tokens == pledge_tokens(amount_usd, sale_level),
{
    let amount: u128 = amount_usd as u128;
    match sale_level {
        1 => amount * 2,
        2 => amount * 175 / 100,
        3 => amount * 15 / 10,
        4 => amount * 125 / 100,
        5 => amount,
        _ => 0,
    }
}

/// Whether the tokens pledged for `amount_usd` at `sale_level` fit the amount type.
pub fn pledge_fits(amount_usd: u64, sale_level: u8) -> (ok: bool)
    ensures
        ok == (pledge_tokens(amount_usd, sale_level) <= u64::MAX),
{
    pledge_tokens_wide(amount_usd, sale_level) <= u64::MAX as u128
}

/// The tokens pledged for `amount_usd` at `sale_level`.
pub fn calculate_pledge_tokens(amount_usd: u64, sale_level: u8) -> (tokens: u64)
    requires
        pledge_tokens(amount_usd, sale_level) <= u64::MAX,
    ensures
        tokens == pledge_tokens(amount_usd, sale_level),
{
    pledge_tokens_wide(amount_usd, sale_level) as u64
}

/// One completed payout or mint: who received how much, and when.
#[derive(Clone, Copy, Debug, PartialEq, Eq)]
pub struct DistributionEvent {
    pub recipient: Pubkey,
    pub amount: u64,
    pub timestamp: i64,
}

/// Appends one event to the distribution log. Earlier events stay as they are.
pub fn add_distribution_event(
    distribution_array: &mut Vec<DistributionEvent>,
    recipient: Pubkey,
    amount: u64,
    timestamp: i64,
)
    ensures
        final(distribution_array)@ == old(distribution_array)@.push(
            DistributionEvent { recipient, amount, timestamp },
        ),
{
    let event = DistributionEvent { recipient, amount, timestamp };
    distribution_array.push(event);
}

/// Everything that the log records as distributed to `recipient`.
pub open spec fn total_distributed(log: Seq<DistributionEvent>, recipient: Pubkey) -> nat
    decreases log.len(),
{
    if log.len() == 0 {
        0
    } else if log.last().recipient == recipient {
        total_distributed(log.drop_last(), recipient) + log.last().amount as nat
    } else {
        total_distributed(log.drop_last(), recipient)
    }
}

/// Adds up what the log records as distributed to `recipient`.
pub fn distributed_to(log: &Vec<DistributionEvent>, recipient: &Pubkey) -> (total: u128)
    ensures
        total == total_distributed(log@, *recipient),
{
    let mut total: u128 = 0;
    let mut i: usize = 0;
    while i < log.len()
        invariant
            i <= log.len(),
            total == total_distributed(log@.take(i as int), *recipient),
            total <= i * u64::MAX,
        decreases log.len() - i,
    {
        assert(log@.take(i + 1).drop_last() == log@.take(i as int));
        if log[i].recipient.same(recipient) {
            total = total + log[i].amount as u128;
        }
        i += 1;
    }
    assert(log@.take(i as int) == log@);
    total
}

/// The records that opening a vesting account works on: the account, absent until
/// opened, and the participant's place in the tier ledger.
pub struct InitializeVesting {
    pub vesting_account: Option<UserState>,
    pub mlm_participant: MLMParticipant,
}

/// The vesting record of a first purchase of `amount` by `user` at `now`.
pub open spec fn opened_account(user: Pubkey, amount: u64, now: i64) -> UserState {
    UserState {
        user,
        amount_purchased: amount,
        vesting_start_timestamp: now,
        vesting_end_timestamp: (now + VESTING_DURATION) as i64,
        last_reward_calculation_timestamp: now,
        rewards_claimed: 0,
        referred_by: None,
    }
}

/// Opens the vesting account of `user` for a purchase of `amount` at `now` and enters
/// the user into the tier ledger at level 1. An account is opened only once.
pub fn initialize_vesting(
    accounts: &mut InitializeVesting,
    user: Pubkey,
    amount: u64,
    now: i64,
) -> (opened: Result<(), ErrorCode>)
    requires
        old(accounts).vesting_account is None ==> now + VESTING_DURATION <= i64::MAX,
    ensures
        opened == if old(accounts).vesting_account is Some {
            Err::<(), ErrorCode>(ErrorCode::DuplicateInitialization)
        } else {
            Ok(())
        },
        opened is Err ==> *final(accounts) == *old(accounts),
        opened is Ok ==> {
            &&& final(accounts).vesting_account == Some(opened_account(user, amount, now))
            &&& final(accounts).vesting_account->0.wf()
            &&& final(accounts).mlm_participant == (MLMParticipant {
                user,
                level: 1,
                rewards_earned: 0,
            })
        },
{
    if accounts.vesting_account.is_some() {
        return Err(ErrorCode::DuplicateInitialization);
    }
    accounts.vesting_account = Some(
        UserState {
            user,
            amount_purchased: amount,
            vesting_start_timestamp: now,
            vesting_end_timestamp: now + VESTING_DURATION,
            last_reward_calculation_timestamp: now,
            rewards_claimed: 0,
            referred_by: None,
        },
    );
    MLMStrategy::initialize_participant(&mut accounts.mlm_participant, user);
    Ok(())
}

/// The records that a claim works on.
pub struct ClaimRewards {
    pub vesting_account: UserState,
    pub mlm_participant: MLMParticipant,
}

/// Everything that a participant is entitled to at maturity.
pub open spec fn total_entitlement(account: UserState) -> int {
    account.amount_purchased * REWARD_MULTIPLIER
}

/// Why a claim at `now` is refused, if it is. `transferred` says whether the ledger
/// carried out the transfer of the payout.
pub open spec fn claim_refusal(accounts: ClaimRewards, now: i64, transferred: bool) -> Option<
    ErrorCode,
> {
    if accounts.mlm_participant.user != accounts.vesting_account.user {
        Some(ErrorCode::AccountNotFound)
    } else if now < accounts.vesting_account.vesting_end_timestamp {
        Some(ErrorCode::VestingPeriodNotCompleted)
    } else if total_entitlement(accounts.vesting_account)
        <= accounts.vesting_account.rewards_claimed {
        Some(ErrorCode::NoRewardsAvailable)
    } else if !transferred {
        Some(ErrorCode::TransferFailed)
    } else {
        None
    }
}

/// What a claim pays out: the entitlement not yet claimed, and the bonus of the
/// participant's tier level on top of it.
pub open spec fn claim_payout(accounts: ClaimRewards) -> int {
    total_entitlement(accounts.vesting_account) - accounts.vesting_account.rewards_claimed
        + tier_bonus(accounts.mlm_participant.level)
}

/// The records after a claim at `now` went through: the whole entitlement is claimed,
/// and rewards are accounted for up to `now`.
pub open spec fn after_claim(accounts: ClaimRewards, now: i64) -> ClaimRewards {
    ClaimRewards {
        vesting_account: UserState {
            rewards_claimed: total_entitlement(accounts.vesting_account) as u64,
            last_reward_calculation_timestamp: now,
            ..accounts.vesting_account
        },
        mlm_participant: accounts.mlm_participant,
    }
}

/// Whether the amounts of a claim at `now` fit the amount type, where the claim is not
/// refused for another reason.
pub open spec fn claim_fits(accounts: ClaimRewards, now: i64) -> bool {
    claim_refusal(accounts, now, true) is None ==> total_entitlement(accounts.vesting_account)
        <= u64::MAX && claim_payout(accounts) <= u64::MAX
}

fn entitlement(account: &UserState) -> (total: u128)
    ensures
        total == total_entitlement(*account),
        total <= 40 * 0xffff_ffff_ffff_ffffu128,
{
    let total = account.amount_purchased as u128 * REWARD_MULTIPLIER as u128;
    assert(total == account.amount_purchased * 40);
    total
}

/// Decides [`claim_fits`].
pub fn check_claim_fits(accounts: &ClaimRewards, now: i64) -> (ok: bool)
    ensures
        ok == claim_fits(*accounts, now),
{
    let vesting_account = &accounts.vesting_account;
    if !accounts.mlm_participant.user.same(&vesting_account.user) {
        return true;
    }
    if now < vesting_account.vesting_end_timestamp {
        return true;
    }
    let total_rewards = entitlement(vesting_account);
    if total_rewards <= vesting_account.rewards_claimed as u128 {
        return true;
    }
    let mlm_rewards = MLMStrategy::calculate_rewards(&accounts.mlm_participant);
    let rewards_to_claim: u128 = total_rewards - vesting_account.rewards_claimed as u128;
    let payout: u128 = rewards_to_claim + mlm_rewards as u128;
    total_rewards <= u64::MAX as u128 && payout <= u64::MAX as u128
}

/// What a claim at `now` would pay out, or why it would be refused. Nothing changes.
pub fn quote_claim(accounts: &ClaimRewards, now: i64) -> (quote: Result<u64, ErrorCode>)
    requires
        claim_fits(*accounts, now),
    ensures
        match quote {
            Ok(payout) => claim_refusal(*accounts, now, true) is None && payout == claim_payout(
                *accounts,
            ),
            Err(e) => claim_refusal(*accounts, now, true) == Some(e),
        },
{
    let vesting_account = &accounts.vesting_account;
    if !accounts.mlm_participant.user.same(&vesting_account.user) {
        return Err(ErrorCode::AccountNotFound);
    }
    if now < vesting_account.vesting_end_timestamp {
        return Err(ErrorCode::VestingPeriodNotCompleted);
    }
    let total_rewards = entitlement(vesting_account);
    if total_rewards <= vesting_account.rewards_claimed as u128 {
        return Err(ErrorCode::NoRewardsAvailable);
    }
    let rewards_to_claim: u64 = total_rewards as u64 - vesting_account.rewards_claimed;
    let mlm_rewards = MLMStrategy::calculate_rewards(&accounts.mlm_participant);
    Ok(rewards_to_claim + mlm_rewards)
}

/// Claims the matured rewards at `now`. The caller first asks [`quote_claim`] for the
/// payout, has the ledger transfer it, and reports in `transferred` whether that went
/// through. A claim that goes through marks the whole entitlement as claimed and
/// appends one event to the distribution log; a refused claim changes nothing.
pub fn claim_rewards(
    accounts: &mut ClaimRewards,
    distribution: &mut Vec<DistributionEvent>,
    now: i64,
    transferred: bool,
) -> (claimed: Result<u64, ErrorCode>)
    requires
        claim_fits(*old(accounts), now),
    ensures
        match claimed {
            Ok(payout) => {
                &&& claim_refusal(*old(accounts), now, transferred) is None
                &&& payout == claim_payout(*old(accounts))
                &&& *final(accounts) == after_claim(*old(accounts), now)
                &&& final(distribution)@ == old(distribution)@.push(
                    DistributionEvent {
                        recipient: old(accounts).vesting_account.user,
                        amount: payout,
                        timestamp: now,
                    },
                )
                &&& old(accounts).vesting_account.rewards_claimed
                    < final(accounts).vesting_account.rewards_claimed
                &&& final(accounts).vesting_account.rewards_claimed == total_entitlement(
                    old(accounts).vesting_account,
                )
            },
            Err(e) => {
                &&& claim_refusal(*old(accounts), now, transferred) == Some(e)
                &&& *final(accounts) == *old(accounts)
                &&& final(distribution)@ == old(distribution)@
            },
        },
{
    let payout = quote_claim(accounts, now)?;
    if !transferred {
        return Err(ErrorCode::TransferFailed);
    }
    let total_rewards = entitlement(&accounts.vesting_account) as u64;
    accounts.vesting_account.rewards_claimed = total_rewards;
    accounts.vesting_account.last_reward_calculation_timestamp = now;
    add_distribution_event(distribution, accounts.vesting_account.user, payout, now);
    Ok(payout)
}

/// A claim that went through cannot be repeated: while nothing more is bought, every
/// further claim is refused because no rewards are available.
pub proof fn lemma_claim_is_not_repeated(
    accounts: ClaimRewards,
    now: i64,
    later: i64,
    transferred: bool,
)
    requires
        claim_refusal(accounts, now, true) is None,
        total_entitlement(accounts.vesting_account) <= u64::MAX,
        now <= later,
    ensures
        claim_refusal(after_claim(accounts, now), later, transferred) == Some(
            ErrorCode::NoRewardsAvailable,
        ),
{
}

/// The record that referral operations work on.
pub struct UpdateReferralRewards {
    pub user_state: UserState,
}

/// Records `referrer` as the one who referred the participant. This is allowed once,
/// and nobody refers themselves.
pub fn set_referral(accounts: &mut UpdateReferralRewards, referrer: Pubkey) -> (set: Result<
    (),
    ErrorCode,
>)
    ensures
        set == if old(accounts).user_state.referred_by is Some {
            Err::<(), ErrorCode>(ErrorCode::AlreadyReferred)
        } else if referrer == old(accounts).user_state.user {
            Err(ErrorCode::SelfReferral)
        } else {
            Ok(())
        },
        set is Err ==> *final(accounts) == *old(accounts),
        set is Ok ==> final(accounts).user_state == (UserState {
            referred_by: Some(referrer),
            ..old(accounts).user_state
        }),
{
    if accounts.user_state.referred_by.is_some() {
        return Err(ErrorCode::AlreadyReferred);
    }
    if referrer.same(&accounts.user_state.user) {
        return Err(ErrorCode::SelfReferral);
    }
    accounts.user_state.referred_by = Some(referrer);
    Ok(())
}

/// Credits the referral reward to the participant's accounted rewards, provided that
/// `referred_user` is the referrer on record. Nothing is transferred, and any other
/// name is refused without a change.
pub fn update_referral_rewards(
    accounts: &mut UpdateReferralRewards,
    referred_user: Pubkey,
) -> (credited: Result<(), ErrorCode>)
    requires
        old(accounts).user_state.referred_by == Some(referred_user)
            ==> old(accounts).user_state.rewards_claimed + REFERRAL_REWARD <= u64::MAX,
    ensures
        credited == if old(accounts).user_state.referred_by == Some(referred_user) {
            Ok::<(), ErrorCode>(())
        } else {
            Err(ErrorCode::InvalidReferral)
        },
        credited is Err ==> *final(accounts) == *old(accounts),
        credited is Ok ==> final(accounts).user_state == (UserState {
            rewards_claimed: (old(accounts).user_state.rewards_claimed + REFERRAL_REWARD) as u64,
            ..old(accounts).user_state
        }),
{
    let matches = match &accounts.user_state.referred_by {
        Some(referrer) => referrer.same(&referred_user),
        None => false,
    };
    if !matches {
        return Err(ErrorCode::InvalidReferral);
    }
    accounts.user_state.rewards_claimed = accounts.user_state.rewards_claimed + REFERRAL_REWARD;
    Ok(())
}

/// `claimed + accrued`, held at the ceiling of the amount type.
pub open spec fn saturating_sum(claimed: int, accrued: int) -> int {
    if claimed + accrued > u64::MAX {
        u64::MAX as int
    } else {
        claimed + accrued
    }
}

/// From when compound interest on the account runs: the later of the start of vesting
/// and the time up to which rewards are accounted for.
pub open spec fn accrual_start(account: UserState) -> i64 {
    if account.last_reward_calculation_timestamp >= account.vesting_start_timestamp {
        account.last_reward_calculation_timestamp
    } else {
        account.vesting_start_timestamp
    }
}

/// The compound interest that the account has accrued at `now` and not yet accounted for.
pub open spec fn pending_rewards(account: UserState, now: i64) -> int {
    compound_interest(account.amount_purchased, now - accrual_start(account))
}

/// The account after `additional_amount` was locked at `now`: the rewards `accrued` on
/// the earlier amount are accounted for, then the amount grows and accrual starts anew.
pub open spec fn after_lock(
    account: UserState,
    additional_amount: u64,
    accrued: int,
    now: i64,
) -> UserState {
    UserState {
        amount_purchased: (account.amount_purchased + additional_amount) as u64,
        rewards_claimed: saturating_sum(account.rewards_claimed as int, accrued) as u64,
        last_reward_calculation_timestamp: now,
        ..account
    }
}

fn accrual_checkpoint(account: &UserState) -> (from: i64)
    ensures
        from == accrual_start(*account),
{
    if account.last_reward_calculation_timestamp >= account.vesting_start_timestamp {
        account.last_reward_calculation_timestamp
    } else {
        account.vesting_start_timestamp
    }
}

/// The record that locking a further amount with linear accrual works on.
pub struct UpdateLockedAmountAndRewards {
    pub vesting_account: UserState,
}

/// Locks `additional_amount` at `now`. Before the amount grows, the linear interest that
/// the earlier amount accrued since rewards were last accounted for is added to the
/// accounted rewards, which are held at the ceiling of the amount type.
pub fn update_locked_amount_and_rewards(
    accounts: &mut UpdateLockedAmountAndRewards,
    additional_amount: u64,
    now: i64,
) -> (updated: Result<(), ErrorCode>)
    requires
        old(accounts).vesting_account.amount_purchased + additional_amount <= u64::MAX,
    ensures
        updated is Ok,
        final(accounts).vesting_account == after_lock(
            old(accounts).vesting_account,
            additional_amount,
            linear_interest(
                old(accounts).vesting_account.amount_purchased,
                now - old(accounts).vesting_account.last_reward_calculation_timestamp,
            ),
            now,
        ),
        final(accounts).vesting_account.rewards_claimed
            >= old(accounts).vesting_account.rewards_claimed,
{
    let vesting_account = &mut accounts.vesting_account;
    let existing_rewards = accrued_linear(
        vesting_account.amount_purchased,
        vesting_account.last_reward_calculation_timestamp,
        now,
    );
    vesting_account.amount_purchased = vesting_account.amount_purchased + additional_amount;
    vesting_account.last_reward_calculation_timestamp = now;
    vesting_account.rewards_claimed = vesting_account.rewards_claimed.saturating_add(
        existing_rewards,
    );
    Ok(())
}

/// The record that locking a further amount with compound accrual works on.
pub struct UpdateReward {
    pub vesting_account: UserState,
}

/// Locks `additional_amount` at `now`. Before the amount grows, the compound interest
/// that the earlier amount accrued is added to the accounted rewards, which are held at
/// the ceiling of the amount type; a purchase never resets them.
pub fn update_reward(
    accounts: &mut UpdateReward,
    additional_amount: u64,
    now: i64,
) -> (updated: Result<(), ErrorCode>)
    requires
        old(accounts).vesting_account.amount_purchased + additional_amount <= u64::MAX,
    ensures
        updated is Ok,
        final(accounts).vesting_account == after_lock(
            old(accounts).vesting_account,
            additional_amount,
            pending_rewards(old(accounts).vesting_account, now),
            now,
        ),
        final(accounts).vesting_account.rewards_claimed
            >= old(accounts).vesting_account.rewards_claimed,
{
    let vesting_account = &mut accounts.vesting_account;
    let from = accrual_checkpoint(vesting_account);
    let existing_rewards = accrued_compound(vesting_account.amount_purchased, from, now);
    vesting_account.amount_purchased = vesting_account.amount_purchased + additional_amount;
    vesting_account.rewards_claimed = vesting_account.rewards_claimed.saturating_add(
        existing_rewards,
    );
    vesting_account.last_reward_calculation_timestamp = now;
    Ok(())
}

/// The record that viewing rewards reads.
pub struct ViewRewards {
    pub vesting_account: UserState,
}

/// The compound interest that `user` has accrued at `now` and not yet accounted for.
/// The record must be the one of `user`.
pub fn view_rewards(accounts: &ViewRewards, user: Pubkey, now: i64) -> (rewards: Result<
    u64,
    ErrorCode,
>)
    ensures
        match rewards {
            Ok(amount) => accounts.vesting_account.user == user && amount == pending_rewards(
                accounts.vesting_account,
                now,
            ),
            Err(e) => accounts.vesting_account.user != user && e == ErrorCode::AccountNotFound,
        },
{
    let vesting_account = &accounts.vesting_account;
    if !vesting_account.user.same(&user) {
        return Err(ErrorCode::AccountNotFound);
    }
    let from = accrual_checkpoint(vesting_account);
    Ok(accrued_compound(vesting_account.amount_purchased, from, now))
}

/// The records that a purchase at the sale's level works on: the buyer, the buyer's
/// vesting account, absent before the first purchase, and the buyer's place in the
/// tier ledger.
pub struct PurchaseAndVest {
    pub user: Pubkey,
    pub vesting_account: Option<UserState>,
    pub mlm_participant: MLMParticipant,
}

/// The tokens pledged for `amount_usd` at the level that the sale has reached at `now`.
pub open spec fn pledged(amount_usd: u64, sale_start_timestamp: i64, now: i64) -> int {
    pledge_tokens(amount_usd, sale_level(sale_start_timestamp, now) as u8)
}

/// Whether the amounts of a purchase fit the amount and time types.
pub open spec fn purchase_fits(
    accounts: PurchaseAndVest,
    amount_usd: u64,
    sale_start_timestamp: i64,
    now: i64,
) -> bool {
    &&& pledged(amount_usd, sale_start_timestamp, now) <= u64::MAX
    &&& match accounts.vesting_account {
        None => now + VESTING_DURATION <= i64::MAX,
        Some(account) => account.user == accounts.user ==> account.amount_purchased + pledged(
            amount_usd,
            sale_start_timestamp,
            now,
        ) <= u64::MAX,
    }
}

/// Decides [`purchase_fits`].
pub fn check_purchase_fits(
    accounts: &PurchaseAndVest,
    amount_usd: u64,
    sale_start_timestamp: i64,
    now: i64,
) -> (ok: bool)
    ensures
        ok == purchase_fits(*accounts, amount_usd, sale_start_timestamp, now),
{
    let sale_level = determine_sale_level(sale_start_timestamp, now);
    let tokens = pledge_tokens_wide(amount_usd, sale_level);
    if tokens > u64::MAX as u128 {
        return false;
    }
    match &accounts.vesting_account {
        None => now <= i64::MAX - VESTING_DURATION,
        Some(account) => !account.user.same(&accounts.user) || account.amount_purchased as u128
            + tokens <= u64::MAX as u128,
    }
}

/// Buys pledge tokens for `amount_usd` at the level that the sale has reached at `now`
/// and vests them. The result is the number of tokens to mint to the buyer. A first
/// purchase opens the buyer's vesting account and enters the buyer into the tier
/// ledger; a later one accounts for the compound interest accrued so far and then adds
/// to the locked amount. Either way one event is appended to the distribution log.
pub fn purchase_and_vest(
    accounts: &mut PurchaseAndVest,
    distribution: &mut Vec<DistributionEvent>,
    amount_usd: u64,
    sale_start_timestamp: i64,
    now: i64,
) -> (purchased: Result<u64, ErrorCode>)
    requires
        purchase_fits(*old(accounts), amount_usd, sale_start_timestamp, now),
    ensures
        final(accounts).user == old(accounts).user,
        match purchased {
            Ok(tokens) => {
                &&& tokens == pledged(amount_usd, sale_start_timestamp, now)
                &&& match old(accounts).vesting_account {
                    None => {
                        &&& final(accounts).vesting_account == Some(
                            opened_account(old(accounts).user, tokens, now),
                        )
                        &&& final(accounts).mlm_participant == (MLMParticipant {
                            user: old(accounts).user,
                            level: 1,
                            rewards_earned: 0,
                        })
                    },
                    Some(account) => {
                        &&& account.user == old(accounts).user
                        &&& final(accounts).vesting_account == Some(
                            after_lock(account, tokens, pending_rewards(account, now), now),
                        )
                        &&& final(accounts).mlm_participant == old(accounts).mlm_participant
                    },
                }
                &&& final(distribution)@ == old(distribution)@.push(
                    DistributionEvent {
                        recipient: old(accounts).user,
                        amount: tokens,
                        timestamp: now,
                    },
                )
            },
            Err(e) => {
                &&& e == ErrorCode::AccountNotFound
                &&& old(accounts).vesting_account matches Some(account)
                &&& account.user != old(accounts).user
                &&& *final(accounts) == *old(accounts)
                &&& final(distribution)@ == old(distribution)@
            },
        },
{
    let sale_level = determine_sale_level(sale_start_timestamp, now);
    let pledge_tokens = calculate_pledge_tokens(amount_usd, sale_level);
    match accounts.vesting_account {
        None => {
            accounts.vesting_account = Some(
                UserState {
                    user: accounts.user,
                    amount_purchased: pledge_tokens,
                    vesting_start_timestamp: now,
                    vesting_end_timestamp: now + VESTING_DURATION,
                    last_reward_calculation_timestamp: now,
                    rewards_claimed: 0,
                    referred_by: None,
                },
            );
            MLMStrategy::initialize_participant(&mut accounts.mlm_participant, accounts.user);
        },
        Some(account) => {
            if !account.user.same(&accounts.user) {
                return Err(ErrorCode::AccountNotFound);
            }
            let mut lock = UpdateReward { vesting_account: account };
            let _ = update_reward(&mut lock, pledge_tokens, now);
            accounts.vesting_account = Some(lock.vesting_account);
        },
    }
    add_distribution_event(distribution, accounts.user, pledge_tokens, now);
    Ok(pledge_tokens)
}

/// Locking a further amount keeps who the account belongs to, its vesting window and
/// its referrer, and never lowers the accounted rewards.
pub proof fn lemma_lock_keeps_account(
    account: UserState,
    additional_amount: u64,
    accrued: int,
    now: i64,
)
    requires
        0 <= accrued,
    ensures
        after_lock(account, additional_amount, accrued, now).user == account.user,
        after_lock(account, additional_amount, accrued, now).vesting_start_timestamp
            == account.vesting_start_timestamp,
        after_lock(account, additional_amount, accrued, now).vesting_end_timestamp
            == account.vesting_end_timestamp,
        after_lock(account, additional_amount, accrued, now).referred_by == account.referred_by,
        after_lock(account, additional_amount, accrued, now).rewards_claimed
            >= account.rewards_claimed,
        account.wf() ==> after_lock(account, additional_amount, accrued, now).wf(),
{
}

/// A claim keeps who the account belongs to, what was purchased, the vesting window,
/// the referrer and the tier level.
pub proof fn lemma_claim_keeps_account(accounts: ClaimRewards, now: i64)
    ensures
        after_claim(accounts, now).vesting_account.user == accounts.vesting_account.user,
        after_claim(accounts, now).vesting_account.amount_purchased
            == accounts.vesting_account.amount_purchased,
        after_claim(accounts, now).vesting_account.vesting_start_timestamp
            == accounts.vesting_account.vesting_start_timestamp,
        after_claim(accounts, now).vesting_account.vesting_end_timestamp
            == accounts.vesting_account.vesting_end_timestamp,
        after_claim(accounts, now).vesting_account.referred_by
            == accounts.vesting_account.referred_by,
        after_claim(accounts, now).mlm_participant == accounts.mlm_participant,
{
}

/// Pending rewards never shrink while the clock moves forward and nothing else changes.
pub proof fn lemma_pending_rewards_never_shrink(account: UserState, earlier: i64, later: i64)
    requires
        earlier <= later,
    ensures
        0 <= pending_rewards(account, earlier) <= pending_rewards(account, later) <= u64::MAX,
{
    lemma_compound_interest_increases(
        account.amount_purchased,
        earlier - accrual_start(account),
        later - accrual_start(account),
    );
}

/// Appending an event adds its amount to what its recipient has received and leaves
/// what every other recipient has received as it was.
pub proof fn lemma_total_distributed_append(
    log: Seq<DistributionEvent>,
    event: DistributionEvent,
    recipient: Pubkey,
)
    ensures
        total_distributed(log.push(event), recipient) == total_distributed(log, recipient) + (
        if event.recipient == recipient {
            event.amount as int
        } else {
            0
        }),
{
    assert(log.push(event).drop_last() == log);
}

} // verus!
