//! The treasury: an administrator lists beneficiaries, and a beneficiary claims funds.

use crate::state::Pubkey;
use vstd::prelude::*;

verus! {

/// Why a treasury operation was refused. A refused operation leaves every record as it was.
#[derive(Clone, Copy, Debug, PartialEq, Eq, Structural)]
pub enum ErrorCode {
    /// Unauthorized action.
    Unauthorized,
    /// Beneficiary not found.
    BeneficiaryNotFound,
    /// The funds cannot be moved: the treasury holds too little, or the beneficiary's
    /// balance would not fit.
    TransferFailed,
    /// The treasury already has an administrator.
    DuplicateInitialization,
}

impl ErrorCode {
    /// The text shown to a caller for this failure.
    pub fn message(&self) -> (text: &'static str)
        ensures
            text@ == match *self {
                ErrorCode::Unauthorized => "Unauthorized action."@,
                ErrorCode::BeneficiaryNotFound => "Beneficiary not found."@,
                ErrorCode::TransferFailed => "The transfer failed."@,
                ErrorCode::DuplicateInitialization => "The treasury is already initialized."@,
            },
    {
        match self {
            ErrorCode::Unauthorized => "Unauthorized action.",
            ErrorCode::BeneficiaryNotFound => "Beneficiary not found.",
            ErrorCode::TransferFailed => "The transfer failed.",
            ErrorCode::DuplicateInitialization => "The treasury is already initialized.",
        }
    }
}

/// Someone entitled to funds of the treasury, and how much a claim moves.
#[derive(Clone, Copy, Debug, PartialEq, Eq)]
pub struct BeneficiaryInfo {
    pub beneficiary: Pubkey,
    pub amount: u64,
}

/// The treasury's administrator and its beneficiaries, in the order they were added.
#[derive(Clone, Debug, PartialEq, Eq)]
pub struct TreasuryState {
    pub admin: Pubkey,
    pub beneficiaries: Vec<BeneficiaryInfo>,
}

/// Whether `list` has an entry for `key`.
pub open spec fn is_listed(list: Seq<BeneficiaryInfo>, key: Pubkey) -> bool {
    exists|i: int| 0 <= i < list.len() && (#[trigger] list[i]).beneficiary == key
}

/// Whether entry `i` is the first entry of `list` for `key`.
pub open spec fn is_first_entry(list: Seq<BeneficiaryInfo>, key: Pubkey, i: int) -> bool {
    &&& 0 <= i < list.len()
    &&& list[i].beneficiary == key
    &&& forall|j: int| 0 <= j < i ==> (#[trigger] list[j]).beneficiary != key
}

/// The place of the first entry for `key`, if there is one.
pub fn find_beneficiary(list: &Vec<BeneficiaryInfo>, key: &Pubkey) -> (found: Option<usize>)
    ensures
        match found {
            Some(i) => is_first_entry(list@, *key, i as int),
            None => !is_listed(list@, *key),
        },
{
    let mut i: usize = 0;
    while i < list.len()
        invariant
            i <= list.len(),
            forall|j: int| 0 <= j < i ==> (#[trigger] list@[j]).beneficiary != *key,
        decreases list.len() - i,
    {
        if list[i].beneficiary.same(key) {
            return Some(i);
        }
        i += 1;
    }
    None
}

/// The record that setting up the treasury works on: the treasury, absent until set up.
pub struct Initialize {
    pub treasury_state: Option<TreasuryState>,
}

/// Sets up the treasury with its administrator and no beneficiary. This is done once.
pub fn initialize(accounts: &mut Initialize, admin: Pubkey) -> (done: Result<(), ErrorCode>)
    ensures
        done == if old(accounts).treasury_state is Some {
            Err::<(), ErrorCode>(ErrorCode::DuplicateInitialization)
        } else {
            Ok(())
        },
        done is Err ==> *final(accounts) == *old(accounts),
        done is Ok ==> {
            &&& final(accounts).treasury_state is Some
            &&& final(accounts).treasury_state->0.admin == admin
            &&& final(accounts).treasury_state->0.beneficiaries@ == Seq::<BeneficiaryInfo>::empty()
        },
{
    if accounts.treasury_state.is_some() {
        return Err(ErrorCode::DuplicateInitialization);
    }
    accounts.treasury_state = Some(TreasuryState { admin, beneficiaries: Vec::new() });
    Ok(())
}

/// The records that managing beneficiaries works on: the treasury, and who asks.
pub struct ManageBeneficiary {
    pub treasury_state: TreasuryState,
    pub admin: Pubkey,
}

/// Adds a beneficiary at the end of the list. Only the treasury's administrator may.
pub fn add_beneficiary(
    accounts: &mut ManageBeneficiary,
    beneficiary: Pubkey,
    amount: u64,
) -> (added: Result<(), ErrorCode>)
    ensures
        final(accounts).admin == old(accounts).admin,
        final(accounts).treasury_state.admin == old(accounts).treasury_state.admin,
        added == if old(accounts).admin == old(accounts).treasury_state.admin {
            Ok::<(), ErrorCode>(())
        } else {
            Err(ErrorCode::Unauthorized)
        },
        added is Err ==> *final(accounts) == *old(accounts),
        added is Ok ==> final(accounts).treasury_state.beneficiaries@
            == old(accounts).treasury_state.beneficiaries@.push(
            BeneficiaryInfo { beneficiary, amount },
        ),
{
    if !accounts.admin.same(&accounts.treasury_state.admin) {
        return Err(ErrorCode::Unauthorized);
    }
    let beneficiary_info = BeneficiaryInfo { beneficiary, amount };
    accounts.treasury_state.beneficiaries.push(beneficiary_info);
    Ok(())
}

/// Removes the first entry of a beneficiary; the other entries keep their order. Only
/// the treasury's administrator may.
pub fn remove_beneficiary(
    accounts: &mut ManageBeneficiary,
    beneficiary: Pubkey,
) -> (removed: Result<(), ErrorCode>)
    ensures
        final(accounts).admin == old(accounts).admin,
        final(accounts).treasury_state.admin == old(accounts).treasury_state.admin,
        match removed {
            Ok(()) => {
                &&& old(accounts).admin == old(accounts).treasury_state.admin
                &&& exists|i: int|
                    {
                        &&& #[trigger] is_first_entry(
                            old(accounts).treasury_state.beneficiaries@,
                            beneficiary,
                            i,
                        )
                        &&& final(accounts).treasury_state.beneficiaries@
                            == old(accounts).treasury_state.beneficiaries@.remove(i)
                    }
            },
            Err(e) => {
                &&& *final(accounts) == *old(accounts)
                &&& e == if old(accounts).admin != old(accounts).treasury_state.admin {
                    ErrorCode::Unauthorized
                } else {
                    ErrorCode::BeneficiaryNotFound
                }
                &&& e == ErrorCode::BeneficiaryNotFound ==> !is_listed(
                    old(accounts).treasury_state.beneficiaries@,
                    beneficiary,
                )
            },
        },
{
    if !accounts.admin.same(&accounts.treasury_state.admin) {
        return Err(ErrorCode::Unauthorized);
    }
    let index = match find_beneficiary(&accounts.treasury_state.beneficiaries, &beneficiary) {
        Some(i) => i,
        None => {
            return Err(ErrorCode::BeneficiaryNotFound);
        },
    };
    accounts.treasury_state.beneficiaries.remove(index);
    assert(is_first_entry(
        old(accounts).treasury_state.beneficiaries@,
        beneficiary,
        index as int,
    ));
    Ok(())
}

/// The records that a claim of funds works on: the treasury and its balance, and the
/// claiming beneficiary and their balance.
pub struct ClaimFunds {
    pub treasury: TreasuryState,
    pub treasury_lamports: u64,
    pub beneficiary: Pubkey,
    pub beneficiary_lamports: u64,
}

/// Whether a claim can move the amount of entry `i`: the treasury holds that much, and
/// the beneficiary's balance stays within the amount type.
pub open spec fn can_move(accounts: ClaimFunds, i: int) -> bool {
    let amount = accounts.treasury.beneficiaries@[i].amount;
    amount <= accounts.treasury_lamports && accounts.beneficiary_lamports + amount <= u64::MAX
}

/// The records after the amount of entry `i` was moved from the treasury's balance to
/// the beneficiary's.
pub open spec fn after_move(accounts: ClaimFunds, i: int) -> ClaimFunds {
    let amount = accounts.treasury.beneficiaries@[i].amount;
    ClaimFunds {
        treasury_lamports: (accounts.treasury_lamports - amount) as u64,
        beneficiary_lamports: (accounts.beneficiary_lamports + amount) as u64,
        ..accounts
    }
}

/// Moves the amount of the beneficiary's first entry from the treasury's balance to the
/// beneficiary's. Whoever has no entry is not authorized.
pub fn claim_funds(accounts: &mut ClaimFunds) -> (claimed: Result<(), ErrorCode>)
    ensures
        match claimed {
            Ok(()) => exists|i: int|
                {
                    &&& #[trigger] is_first_entry(
                        old(accounts).treasury.beneficiaries@,
                        old(accounts).beneficiary,
                        i,
                    )
                    &&& can_move(*old(accounts), i)
                    &&& *final(accounts) == after_move(*old(accounts), i)
                },
            Err(ErrorCode::Unauthorized) => {
                &&& !is_listed(old(accounts).treasury.beneficiaries@, old(accounts).beneficiary)
                &&& *final(accounts) == *old(accounts)
            },
            Err(ErrorCode::TransferFailed) => {
                &&& *final(accounts) == *old(accounts)
                &&& exists|i: int|
                    {
                        &&& #[trigger] is_first_entry(
                            old(accounts).treasury.beneficiaries@,
                            old(accounts).beneficiary,
                            i,
                        )
                        &&& !can_move(*old(accounts), i)
                    }
            },
            Err(_) => false,
        },
{
    let index = match find_beneficiary(&accounts.treasury.beneficiaries, &accounts.beneficiary) {
        Some(i) => i,
        None => {
            return Err(ErrorCode::Unauthorized);
        },
    };
    let amount = accounts.treasury.beneficiaries[index].amount;
    assert(is_first_entry(
        old(accounts).treasury.beneficiaries@,
        old(accounts).beneficiary,
        index as int,
    ));
    if amount > accounts.treasury_lamports || amount > u64::MAX - accounts.beneficiary_lamports {
        return Err(ErrorCode::TransferFailed);
    }
    accounts.treasury_lamports = accounts.treasury_lamports - amount;
    accounts.beneficiary_lamports = accounts.beneficiary_lamports + amount;
    Ok(())
}

/// A list has at most one first entry for a key.
pub proof fn lemma_first_entry_is_unique(list: Seq<BeneficiaryInfo>, key: Pubkey, i: int, j: int)
    requires
        is_first_entry(list, key, i),
        is_first_entry(list, key, j),
    ensures
        i == j,
{
}

} // verus!
