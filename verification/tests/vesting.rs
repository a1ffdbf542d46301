use solsticetoken::mlm::{MLMParticipant, MLMStrategy, TIER_REWARD};
use solsticetoken::state::{Pubkey, RewardEntitlement, UserState};
use solsticetoken::vesting::{
    add_distribution_event, calculate_pledge_tokens, claim_rewards, determine_sale_level,
    distributed_to, initialize_vesting, purchase_and_vest, quote_claim, set_referral,
    update_locked_amount_and_rewards, update_referral_rewards, update_reward, view_rewards,
    ClaimRewards, DistributionEvent, ErrorCode, InitializeVesting, PurchaseAndVest,
    UpdateLockedAmountAndRewards, UpdateReferralRewards, UpdateReward, ViewRewards,
    LEVEL_DURATION, MAX_LEVEL, REFERRAL_REWARD, REWARD_MULTIPLIER, VESTING_DURATION,
};

const YEAR: i64 = 31_536_000;
const DAY: i64 = 86_400;

fn key(tag: u8) -> Pubkey {
    Pubkey::new_from_array([tag; 32])
}

fn participant(tag: u8, level: u8) -> MLMParticipant {
    MLMParticipant { user: key(tag), level, rewards_earned: 0 }
}

fn account(tag: u8, amount: u64, start: i64) -> UserState {
    UserState {
        user: key(tag),
        amount_purchased: amount,
        vesting_start_timestamp: start,
        vesting_end_timestamp: start + VESTING_DURATION,
        last_reward_calculation_timestamp: start,
        rewards_claimed: 0,
        referred_by: None,
    }
}

#[test]
fn vesting_constants() {
    assert_eq!(VESTING_DURATION, 2 * 365 * 24 * 60 * 60);
    assert_eq!(REWARD_MULTIPLIER, 40);
    assert_eq!(REFERRAL_REWARD, 10);
    assert_eq!(LEVEL_DURATION, 15 * 24 * 60 * 60);
    assert_eq!(MAX_LEVEL, 5);
    assert_eq!(TIER_REWARD, 100);
}

#[test]
fn initialize_vesting_opens_account() {
    let mut accounts = InitializeVesting { vesting_account: None, mlm_participant: participant(9, 4) };
    assert_eq!(initialize_vesting(&mut accounts, key(1), 1_000, 500), Ok(()));
    assert_eq!(
        accounts.vesting_account,
        Some(UserState {
            user: key(1),
            amount_purchased: 1_000,
            vesting_start_timestamp: 500,
            vesting_end_timestamp: 500 + 63_072_000,
            last_reward_calculation_timestamp: 500,
            rewards_claimed: 0,
            referred_by: None,
        })
    );
    assert_eq!(accounts.mlm_participant, MLMParticipant { user: key(1), level: 1, rewards_earned: 0 });
}

#[test]
fn initialize_vesting_refuses_second_opening() {
    let existing = account(1, 700, 0);
    let mut accounts =
        InitializeVesting { vesting_account: Some(existing), mlm_participant: participant(1, 3) };
    assert_eq!(
        initialize_vesting(&mut accounts, key(1), 1_000, 500),
        Err(ErrorCode::DuplicateInitialization)
    );
    assert_eq!(accounts.vesting_account, Some(existing));
    assert_eq!(accounts.mlm_participant, participant(1, 3));
}

#[test]
fn claim_at_maturity_pays_forty_times_plus_tier_bonus() {
    let mut accounts =
        ClaimRewards { vesting_account: account(1, 1_000, 0), mlm_participant: participant(1, 1) };
    let mut log = Vec::new();
    let end = accounts.vesting_account.vesting_end_timestamp;
    assert_eq!(claim_rewards(&mut accounts, &mut log, end, true), Ok(40_000 + 100));
    assert_eq!(accounts.vesting_account.rewards_claimed, 40_000);
    assert_eq!(accounts.vesting_account.last_reward_calculation_timestamp, end);
    assert_eq!(accounts.vesting_account.amount_purchased, 1_000);
    assert_eq!(log, vec![DistributionEvent { recipient: key(1), amount: 40_100, timestamp: end }]);
    assert_eq!(claim_rewards(&mut accounts, &mut log, end, true), Err(ErrorCode::NoRewardsAvailable));
    assert_eq!(accounts.vesting_account.rewards_claimed, 40_000);
    assert_eq!(log.len(), 1);
}

#[test]
fn claim_at_tier_three_adds_three_hundred() {
    let mut accounts =
        ClaimRewards { vesting_account: account(1, 1_000, 0), mlm_participant: participant(1, 3) };
    let mut log = Vec::new();
    assert_eq!(claim_rewards(&mut accounts, &mut log, VESTING_DURATION + 5, true), Ok(40_000 + 300));
    assert_eq!(accounts.vesting_account.rewards_claimed, 40_000);
    assert_eq!(accounts.mlm_participant, participant(1, 3));
}

#[test]
fn claim_before_maturity_is_refused() {
    let before = ClaimRewards { vesting_account: account(1, 1_000, 0), mlm_participant: participant(1, 1) };
    let mut accounts =
        ClaimRewards { vesting_account: account(1, 1_000, 0), mlm_participant: participant(1, 1) };
    let mut log = Vec::new();
    assert_eq!(
        claim_rewards(&mut accounts, &mut log, VESTING_DURATION - 1, true),
        Err(ErrorCode::VestingPeriodNotCompleted)
    );
    assert_eq!(accounts.vesting_account, before.vesting_account);
    assert_eq!(accounts.mlm_participant, before.mlm_participant);
    assert!(log.is_empty());
}

#[test]
fn claim_pays_only_what_is_not_yet_claimed() {
    let mut vesting_account = account(1, 1_000, 0);
    vesting_account.rewards_claimed = 39_990;
    let mut accounts = ClaimRewards { vesting_account, mlm_participant: participant(1, 2) };
    let mut log = Vec::new();
    assert_eq!(claim_rewards(&mut accounts, &mut log, VESTING_DURATION, true), Ok(10 + 200));
    assert_eq!(accounts.vesting_account.rewards_claimed, 40_000);
}

#[test]
fn claim_with_nothing_left_is_refused() {
    for claimed in [40_000u64, 40_001, u64::MAX] {
        let mut vesting_account = account(1, 1_000, 0);
        vesting_account.rewards_claimed = claimed;
        let mut accounts = ClaimRewards { vesting_account, mlm_participant: participant(1, 5) };
        let mut log = Vec::new();
        assert_eq!(
            claim_rewards(&mut accounts, &mut log, VESTING_DURATION, true),
            Err(ErrorCode::NoRewardsAvailable)
        );
        assert_eq!(accounts.vesting_account.rewards_claimed, claimed);
        assert!(log.is_empty());
    }
}

#[test]
fn claim_without_purchase_is_refused() {
    let mut accounts =
        ClaimRewards { vesting_account: account(1, 0, 0), mlm_participant: participant(1, 5) };
    let mut log = Vec::new();
    assert_eq!(
        claim_rewards(&mut accounts, &mut log, VESTING_DURATION, true),
        Err(ErrorCode::NoRewardsAvailable)
    );
}

#[test]
fn claim_is_not_committed_when_transfer_fails() {
    let mut accounts =
        ClaimRewards { vesting_account: account(1, 1_000, 0), mlm_participant: participant(1, 1) };
    let mut log = vec![DistributionEvent { recipient: key(2), amount: 5, timestamp: 1 }];
    assert_eq!(
        claim_rewards(&mut accounts, &mut log, VESTING_DURATION, false),
        Err(ErrorCode::TransferFailed)
    );
    assert_eq!(accounts.vesting_account, account(1, 1_000, 0));
    assert_eq!(log.len(), 1);
    assert_eq!(claim_rewards(&mut accounts, &mut log, VESTING_DURATION, true), Ok(40_100));
    assert_eq!(log.len(), 2);
    assert_eq!(log[0], DistributionEvent { recipient: key(2), amount: 5, timestamp: 1 });
}

#[test]
fn claim_with_foreign_tier_record_is_refused() {
    let mut accounts =
        ClaimRewards { vesting_account: account(1, 1_000, 0), mlm_participant: participant(2, 1) };
    let mut log = Vec::new();
    assert_eq!(
        claim_rewards(&mut accounts, &mut log, VESTING_DURATION, true),
        Err(ErrorCode::AccountNotFound)
    );
    assert_eq!(accounts.vesting_account.rewards_claimed, 0);
    assert!(log.is_empty());
}

#[test]
fn quote_claim_changes_nothing() {
    let accounts =
        ClaimRewards { vesting_account: account(1, 1_000, 0), mlm_participant: participant(1, 3) };
    assert_eq!(quote_claim(&accounts, VESTING_DURATION), Ok(40_300));
    assert_eq!(quote_claim(&accounts, VESTING_DURATION), Ok(40_300));
    assert_eq!(quote_claim(&accounts, 0), Err(ErrorCode::VestingPeriodNotCompleted));
    assert_eq!(accounts.vesting_account, account(1, 1_000, 0));
}

#[test]
fn claimed_rewards_never_shrink_and_stay_within_entitlement() {
    let mut accounts =
        ClaimRewards { vesting_account: account(1, 250, 0), mlm_participant: participant(1, 1) };
    let mut log = Vec::new();
    let mut last = 0;
    for step in 0..6i64 {
        let now = step * YEAR;
        let _ = claim_rewards(&mut accounts, &mut log, now, step % 2 == 0);
        let claimed = accounts.vesting_account.rewards_claimed;
        assert!(claimed >= last);
        assert!(claimed <= accounts.vesting_account.amount_purchased * 40);
        last = claimed;
    }
    assert_eq!(last, 10_000);
    assert_eq!(log.len(), 1);
}

#[test]
fn set_referral_is_allowed_once() {
    let mut accounts = UpdateReferralRewards { user_state: account(1, 10, 0) };
    assert_eq!(set_referral(&mut accounts, key(2)), Ok(()));
    assert_eq!(accounts.user_state.referred_by, Some(key(2)));
    assert_eq!(set_referral(&mut accounts, key(3)), Err(ErrorCode::AlreadyReferred));
    assert_eq!(set_referral(&mut accounts, key(2)), Err(ErrorCode::AlreadyReferred));
    assert_eq!(accounts.user_state.referred_by, Some(key(2)));
}

#[test]
fn set_referral_refuses_self() {
    let mut accounts = UpdateReferralRewards { user_state: account(1, 10, 0) };
    assert_eq!(set_referral(&mut accounts, key(1)), Err(ErrorCode::SelfReferral));
    assert_eq!(accounts.user_state, account(1, 10, 0));
}

#[test]
fn referral_credit_needs_the_recorded_referrer() {
    let mut accounts = UpdateReferralRewards { user_state: account(1, 10, 0) };
    assert_eq!(update_referral_rewards(&mut accounts, key(2)), Err(ErrorCode::InvalidReferral));
    assert_eq!(accounts.user_state, account(1, 10, 0));
    assert_eq!(set_referral(&mut accounts, key(2)), Ok(()));
    let referred = accounts.user_state;
    assert_eq!(update_referral_rewards(&mut accounts, key(3)), Err(ErrorCode::InvalidReferral));
    assert_eq!(update_referral_rewards(&mut accounts, key(1)), Err(ErrorCode::InvalidReferral));
    assert_eq!(accounts.user_state, referred);
    assert_eq!(update_referral_rewards(&mut accounts, key(2)), Ok(()));
    assert_eq!(accounts.user_state.rewards_claimed, 10);
    assert_eq!(update_referral_rewards(&mut accounts, key(2)), Ok(()));
    assert_eq!(accounts.user_state.rewards_claimed, 20);
    assert_eq!(accounts.user_state.referred_by, Some(key(2)));
    assert_eq!(accounts.user_state.amount_purchased, 10);
}

#[test]
fn referral_credit_distinguishes_keys_in_one_byte() {
    let mut other = [2u8; 32];
    other[17] = 3;
    let mut accounts = UpdateReferralRewards { user_state: account(1, 10, 0) };
    assert_eq!(set_referral(&mut accounts, key(2)), Ok(()));
    assert_eq!(
        update_referral_rewards(&mut accounts, Pubkey::new_from_array(other)),
        Err(ErrorCode::InvalidReferral)
    );
    assert_eq!(accounts.user_state.rewards_claimed, 0);
}

#[test]
fn locking_with_linear_accrual() {
    let mut accounts = UpdateLockedAmountAndRewards { vesting_account: account(1, 1_000, 0) };
    assert_eq!(update_locked_amount_and_rewards(&mut accounts, 500, YEAR / 2), Ok(()));
    assert_eq!(accounts.vesting_account.amount_purchased, 1_500);
    assert_eq!(accounts.vesting_account.rewards_claimed, 500);
    assert_eq!(accounts.vesting_account.last_reward_calculation_timestamp, YEAR / 2);
    assert_eq!(update_locked_amount_and_rewards(&mut accounts, 0, YEAR / 2), Ok(()));
    assert_eq!(accounts.vesting_account.rewards_claimed, 500);
    assert_eq!(update_locked_amount_and_rewards(&mut accounts, 0, YEAR + YEAR / 2), Ok(()));
    assert_eq!(accounts.vesting_account.rewards_claimed, 2_000);
    assert_eq!(accounts.vesting_account.vesting_start_timestamp, 0);
    assert_eq!(accounts.vesting_account.vesting_end_timestamp, VESTING_DURATION);
}

#[test]
fn locking_with_linear_accrual_saturates() {
    let mut vesting_account = account(1, u64::MAX - 5, 0);
    vesting_account.rewards_claimed = 7;
    let mut accounts = UpdateLockedAmountAndRewards { vesting_account };
    assert_eq!(update_locked_amount_and_rewards(&mut accounts, 5, 3 * YEAR), Ok(()));
    assert_eq!(accounts.vesting_account.amount_purchased, u64::MAX);
    assert_eq!(accounts.vesting_account.rewards_claimed, u64::MAX);
}

#[test]
fn locking_with_compound_accrual_keeps_accrued_rewards() {
    let mut accounts = UpdateReward { vesting_account: account(1, 1_000, 0) };
    assert_eq!(update_reward(&mut accounts, 500, YEAR), Ok(()));
    assert_eq!(accounts.vesting_account.amount_purchased, 1_500);
    assert_eq!(accounts.vesting_account.rewards_claimed, 50);
    assert_eq!(accounts.vesting_account.last_reward_calculation_timestamp, YEAR);
    assert_eq!(update_reward(&mut accounts, 0, 2 * YEAR), Ok(()));
    assert_eq!(accounts.vesting_account.rewards_claimed, 50 + 75);
    assert_eq!(update_reward(&mut accounts, 1, 2 * YEAR), Ok(()));
    assert_eq!(accounts.vesting_account.rewards_claimed, 125);
    assert_eq!(accounts.vesting_account.amount_purchased, 1_501);
}

#[test]
fn compound_accrual_runs_from_the_later_of_start_and_checkpoint() {
    let mut vesting_account = account(1, 1_000, 100);
    vesting_account.last_reward_calculation_timestamp = 0;
    let mut accounts = UpdateReward { vesting_account };
    assert_eq!(update_reward(&mut accounts, 0, 100 + YEAR), Ok(()));
    assert_eq!(accounts.vesting_account.rewards_claimed, 50);
    let mut later = account(1, 1_000, 100);
    later.last_reward_calculation_timestamp = 100 + YEAR;
    let view = ViewRewards { vesting_account: later };
    assert_eq!(view_rewards(&view, key(1), 100 + 2 * YEAR), Ok(50));
}

#[test]
fn compound_accrual_saturates_into_claimed_rewards() {
    let mut vesting_account = account(1, 1_000, 0);
    vesting_account.rewards_claimed = u64::MAX - 10;
    let mut accounts = UpdateReward { vesting_account };
    assert_eq!(update_reward(&mut accounts, 0, YEAR), Ok(()));
    assert_eq!(accounts.vesting_account.rewards_claimed, u64::MAX);
    let mut far = UpdateReward { vesting_account: account(1, 1_000, i64::MIN) };
    assert_eq!(update_reward(&mut far, 0, i64::MAX), Ok(()));
    assert_eq!(far.vesting_account.rewards_claimed, u64::MAX);
}

#[test]
fn view_rewards_reports_pending_interest() {
    let view = ViewRewards { vesting_account: account(1, 1_000, 0) };
    assert_eq!(view_rewards(&view, key(1), 0), Ok(0));
    assert_eq!(view_rewards(&view, key(1), -5), Ok(0));
    assert_eq!(view_rewards(&view, key(1), YEAR / 2), Ok(25));
    assert_eq!(view_rewards(&view, key(1), YEAR), Ok(50));
    assert_eq!(view_rewards(&view, key(1), 2 * YEAR + YEAR / 2), Ok(129));
    assert_eq!(view.vesting_account, account(1, 1_000, 0));
}

#[test]
fn view_rewards_of_another_user_is_refused() {
    let view = ViewRewards { vesting_account: account(1, 1_000, 0) };
    assert_eq!(view_rewards(&view, key(2), YEAR), Err(ErrorCode::AccountNotFound));
}

#[test]
fn sale_level_rises_every_fifteen_days() {
    let start = 1_000;
    assert_eq!(determine_sale_level(start, start), 1);
    assert_eq!(determine_sale_level(start, start + 15 * DAY - 1), 1);
    assert_eq!(determine_sale_level(start, start + 15 * DAY), 2);
    assert_eq!(determine_sale_level(start, start + 30 * DAY - 1), 2);
    assert_eq!(determine_sale_level(start, start + 30 * DAY), 3);
    assert_eq!(determine_sale_level(start, start + 45 * DAY), 4);
    assert_eq!(determine_sale_level(start, start + 60 * DAY - 1), 4);
    assert_eq!(determine_sale_level(start, start + 60 * DAY), 5);
    assert_eq!(determine_sale_level(start, start + 600 * DAY), 5);
    assert_eq!(determine_sale_level(i64::MIN, i64::MAX), 5);
}

#[test]
fn sale_level_is_one_before_the_start() {
    assert_eq!(determine_sale_level(1_000, 999), 1);
    assert_eq!(determine_sale_level(1_000, 1_000 - 100 * DAY), 1);
    assert_eq!(determine_sale_level(i64::MAX, i64::MIN), 1);
}

#[test]
fn sale_level_never_falls() {
    let mut last = 0;
    let mut now = -40 * DAY;
    while now < 100 * DAY {
        let level = determine_sale_level(0, now);
        assert!(level >= last);
        assert!((1..=5).contains(&level));
        last = level;
        now += DAY / 2 + 7;
    }
    assert_eq!(last, 5);
}

#[test]
fn pledge_tokens_by_level() {
    assert_eq!(calculate_pledge_tokens(100, 1), 200);
    assert_eq!(calculate_pledge_tokens(101, 2), 176);
    assert_eq!(calculate_pledge_tokens(101, 3), 151);
    assert_eq!(calculate_pledge_tokens(101, 4), 126);
    assert_eq!(calculate_pledge_tokens(101, 5), 101);
    assert_eq!(calculate_pledge_tokens(101, 0), 0);
    assert_eq!(calculate_pledge_tokens(101, 6), 0);
    assert_eq!(calculate_pledge_tokens(u64::MAX, 255), 0);
}

#[test]
fn pledge_tokens_near_the_ceiling() {
    assert_eq!(calculate_pledge_tokens(u64::MAX, 5), u64::MAX);
    assert_eq!(calculate_pledge_tokens(u64::MAX / 2, 1), u64::MAX - 1);
    assert_eq!(calculate_pledge_tokens(10_000_000_000_000_000_000, 4), 12_500_000_000_000_000_000);
}

#[test]
fn first_purchase_opens_account_and_logs() {
    let mut accounts =
        PurchaseAndVest { user: key(1), vesting_account: None, mlm_participant: participant(8, 4) };
    let mut log = Vec::new();
    let now = 1_000 + 20 * DAY;
    assert_eq!(purchase_and_vest(&mut accounts, &mut log, 100, 1_000, now), Ok(175));
    assert_eq!(accounts.vesting_account, Some(account(1, 175, now)));
    assert_eq!(accounts.mlm_participant, participant(1, 1));
    assert_eq!(accounts.user, key(1));
    assert_eq!(log, vec![DistributionEvent { recipient: key(1), amount: 175, timestamp: now }]);
}

#[test]
fn later_purchase_keeps_accrued_rewards() {
    let mut existing = account(1, 1_000, 0);
    existing.rewards_claimed = 7;
    existing.referred_by = Some(key(5));
    let mut accounts = PurchaseAndVest {
        user: key(1),
        vesting_account: Some(existing),
        mlm_participant: participant(1, 3),
    };
    let mut log = Vec::new();
    assert_eq!(purchase_and_vest(&mut accounts, &mut log, 100, 0, YEAR), Ok(100));
    let after = accounts.vesting_account.unwrap();
    assert_eq!(after.amount_purchased, 1_100);
    assert_eq!(after.rewards_claimed, 57);
    assert_eq!(after.last_reward_calculation_timestamp, YEAR);
    assert_eq!(after.vesting_start_timestamp, 0);
    assert_eq!(after.vesting_end_timestamp, VESTING_DURATION);
    assert_eq!(after.referred_by, Some(key(5)));
    assert_eq!(accounts.mlm_participant, participant(1, 3));
    assert_eq!(log, vec![DistributionEvent { recipient: key(1), amount: 100, timestamp: YEAR }]);
}

#[test]
fn purchase_into_foreign_account_is_refused() {
    let existing = account(2, 1_000, 0);
    let mut accounts = PurchaseAndVest {
        user: key(1),
        vesting_account: Some(existing),
        mlm_participant: participant(1, 3),
    };
    let mut log = Vec::new();
    assert_eq!(
        purchase_and_vest(&mut accounts, &mut log, 100, 0, YEAR),
        Err(ErrorCode::AccountNotFound)
    );
    assert_eq!(accounts.vesting_account, Some(existing));
    assert!(log.is_empty());
}

#[test]
fn purchase_before_sale_start_is_priced_at_level_one() {
    let mut accounts =
        PurchaseAndVest { user: key(1), vesting_account: None, mlm_participant: participant(1, 1) };
    let mut log = Vec::new();
    assert_eq!(purchase_and_vest(&mut accounts, &mut log, 100, 1_000, 0), Ok(200));
}

#[test]
fn distribution_log_is_append_only() {
    let mut log = Vec::new();
    add_distribution_event(&mut log, key(1), 10, 100);
    add_distribution_event(&mut log, key(2), 20, 200);
    add_distribution_event(&mut log, key(1), 30, 300);
    assert_eq!(
        log,
        vec![
            DistributionEvent { recipient: key(1), amount: 10, timestamp: 100 },
            DistributionEvent { recipient: key(2), amount: 20, timestamp: 200 },
            DistributionEvent { recipient: key(1), amount: 30, timestamp: 300 },
        ]
    );
}

#[test]
fn distributed_to_adds_up_per_recipient() {
    let mut log = Vec::new();
    assert_eq!(distributed_to(&log, &key(1)), 0);
    add_distribution_event(&mut log, key(1), 10, 100);
    add_distribution_event(&mut log, key(2), 20, 200);
    add_distribution_event(&mut log, key(1), 30, 300);
    assert_eq!(distributed_to(&log, &key(1)), 40);
    assert_eq!(distributed_to(&log, &key(2)), 20);
    assert_eq!(distributed_to(&log, &key(3)), 0);
    add_distribution_event(&mut log, key(2), u64::MAX, 400);
    add_distribution_event(&mut log, key(2), u64::MAX, 500);
    assert_eq!(distributed_to(&log, &key(2)), 20 + 2 * (u64::MAX as u128));
}

#[test]
fn claims_are_not_distributed_twice() {
    let mut accounts =
        ClaimRewards { vesting_account: account(1, 1_000, 0), mlm_participant: participant(1, 1) };
    let mut log = Vec::new();
    for _ in 0..4 {
        let _ = claim_rewards(&mut accounts, &mut log, VESTING_DURATION, true);
    }
    assert_eq!(distributed_to(&log, &key(1)), 40_100);
}

#[test]
fn tier_ledger_starts_at_level_one() {
    let mut entry = participant(9, 4);
    entry.rewards_earned = 77;
    MLMStrategy::initialize_participant(&mut entry, key(1));
    assert_eq!(entry, MLMParticipant { user: key(1), level: 1, rewards_earned: 0 });
    assert_eq!(MLMStrategy::calculate_rewards(&entry), 100);
}

#[test]
fn tier_bonus_is_a_hundred_per_level() {
    assert_eq!(MLMStrategy::calculate_rewards(&participant(1, 0)), 0);
    assert_eq!(MLMStrategy::calculate_rewards(&participant(1, 3)), 300);
    assert_eq!(MLMStrategy::calculate_rewards(&participant(1, 5)), 500);
    assert_eq!(MLMStrategy::calculate_rewards(&participant(1, 255)), 25_500);
}

#[test]
fn tier_level_only_rises() {
    let mut entry = participant(1, 1);
    MLMStrategy::advance_level(&mut entry, 0, 31 * DAY);
    assert_eq!(entry.level, 3);
    MLMStrategy::advance_level(&mut entry, 0, 16 * DAY);
    assert_eq!(entry.level, 3);
    MLMStrategy::advance_level(&mut entry, 0, -DAY);
    assert_eq!(entry.level, 3);
    MLMStrategy::advance_level(&mut entry, 0, 1_000 * DAY);
    assert_eq!(entry.level, 5);
    assert_eq!(entry.user, key(1));
    assert_eq!(entry.rewards_earned, 0);
}

#[test]
fn claim_after_advancing_to_tier_three() {
    let mut entry = participant(1, 1);
    MLMStrategy::advance_level(&mut entry, 0, 30 * DAY);
    let mut accounts = ClaimRewards { vesting_account: account(1, 1_000, 0), mlm_participant: entry };
    let mut log = Vec::new();
    assert_eq!(claim_rewards(&mut accounts, &mut log, VESTING_DURATION, true), Ok(40_300));
}

#[test]
fn vesting_error_messages() {
    assert_eq!(
        ErrorCode::VestingPeriodNotCompleted.message(),
        "The vesting period has not been completed."
    );
    assert_eq!(ErrorCode::NoRewardsAvailable.message(), "No rewards available to claim.");
    assert_eq!(ErrorCode::InvalidReferral.message(), "Invalid referral.");
    assert_eq!(ErrorCode::AlreadyReferred.message(), "The participant already has a referrer.");
    assert_eq!(ErrorCode::SelfReferral.message(), "A participant cannot refer themselves.");
    assert_eq!(ErrorCode::TransferFailed.message(), "The transfer failed.");
    assert_eq!(ErrorCode::AccountNotFound.message(), "Account not found.");
    assert_eq!(ErrorCode::DuplicateInitialization.message(), "The account is already initialized.");
}

#[test]
fn reward_entitlement_holds_an_amount() {
    let entitlement = RewardEntitlement { amount: 40_000 };
    assert_eq!(entitlement, RewardEntitlement { amount: 40_000 });
    assert_eq!(entitlement.amount, 40_000);
}

#[test]
fn pledge_fits_the_amount_type() {
    assert!(solsticetoken::vesting::pledge_fits(u64::MAX / 2, 1));
    assert!(!solsticetoken::vesting::pledge_fits(u64::MAX / 2 + 1, 1));
    assert!(solsticetoken::vesting::pledge_fits(u64::MAX, 5));
    assert!(solsticetoken::vesting::pledge_fits(u64::MAX, 0));
    assert!(!solsticetoken::vesting::pledge_fits(u64::MAX, 4));
    assert!(solsticetoken::vesting::pledge_fits(14_757_395_258_967_641_292, 4));
    assert!(!solsticetoken::vesting::pledge_fits(14_757_395_258_967_641_293, 4));
}

#[test]
fn claim_fits_the_amount_type() {
    let fits = solsticetoken::vesting::check_claim_fits;
    let small = ClaimRewards { vesting_account: account(1, 1_000, 0), mlm_participant: participant(1, 1) };
    assert!(fits(&small, 0));
    assert!(fits(&small, VESTING_DURATION));
    let large =
        ClaimRewards { vesting_account: account(1, u64::MAX / 40 + 1, 0), mlm_participant: participant(1, 1) };
    assert!(fits(&large, VESTING_DURATION - 1));
    assert!(!fits(&large, VESTING_DURATION));
    let foreign =
        ClaimRewards { vesting_account: account(1, u64::MAX, 0), mlm_participant: participant(2, 1) };
    assert!(fits(&foreign, VESTING_DURATION));
    let edge =
        ClaimRewards { vesting_account: account(1, u64::MAX / 40, 0), mlm_participant: participant(1, 1) };
    assert!(!fits(&edge, VESTING_DURATION));
    let mut claimed = account(1, u64::MAX / 40, 0);
    claimed.rewards_claimed = 1_000;
    let edge = ClaimRewards { vesting_account: claimed, mlm_participant: participant(1, 1) };
    assert!(fits(&edge, VESTING_DURATION));
    assert_eq!(quote_claim(&edge, VESTING_DURATION), Ok(u64::MAX / 40 * 40 - 1_000 + 100));
}

#[test]
fn purchase_fits_the_amount_and_time_types() {
    let fits = solsticetoken::vesting::check_purchase_fits;
    let fresh = PurchaseAndVest { user: key(1), vesting_account: None, mlm_participant: participant(1, 1) };
    assert!(fits(&fresh, 100, 0, 0));
    assert!(fits(&fresh, u64::MAX / 2, 0, 0));
    assert!(!fits(&fresh, u64::MAX / 2 + 1, 0, 0));
    assert!(fits(&fresh, u64::MAX, 0, 60 * DAY));
    assert!(fits(&fresh, 1, 0, i64::MAX - VESTING_DURATION));
    assert!(!fits(&fresh, 1, 0, i64::MAX - VESTING_DURATION + 1));
    let held = PurchaseAndVest {
        user: key(1),
        vesting_account: Some(account(1, u64::MAX - 200, 0)),
        mlm_participant: participant(1, 1),
    };
    assert!(fits(&held, 100, 0, 0));
    assert!(!fits(&held, 101, 0, 0));
    assert!(fits(&held, 1, 0, i64::MAX));
    let foreign = PurchaseAndVest {
        user: key(2),
        vesting_account: Some(account(1, u64::MAX, 0)),
        mlm_participant: participant(2, 1),
    };
    assert!(fits(&foreign, 101, 0, 0));
}
