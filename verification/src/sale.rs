//! The public sale: which phase prices a purchase, and whether the cap admits it.

use crate::error::MyContractError;
use crate::state::{valid_schedule, Clock, ICOState, PhaseDetail, Pubkey, UserState};
use vstd::prelude::*;

verus! {

/// Walks the schedule from segment `from` with `remaining` seconds still to place: the
/// first segment that the remaining time does not outlast, or the last segment.
pub open spec fn phase_walk(phases: Seq<PhaseDetail>, from: int, remaining: int) -> int
    decreases phases.len() - from,
{
    if from + 1 >= phases.len() || remaining <= phases[from].duration {
        from
    } else {
        phase_walk(phases, from + 1, remaining - phases[from].duration)
    }
}

/// The segment of the schedule that `now` falls into: none before the sale starts or
/// when the schedule is empty, the last segment forever once the schedule has run out.
pub open spec fn current_phase(ico: ICOState, now: i64) -> Option<int> {
    if now < ico.start_timestamp || ico.phase_details@.len() == 0 {
        None
    } else {
        Some(phase_walk(ico.phase_details@, 0, now - ico.start_timestamp))
    }
}

/// Seconds from the start of the sale to the end of segment `i`.
pub open spec fn phase_end(phases: Seq<PhaseDetail>, i: int) -> int
    decreases i + 1,
{
    if i < 0 {
        0
    } else {
        phase_end(phases, i - 1) + phases[i].duration
    }
}

/// What a purchase of `amount_sol` at `now` yields: the tokens bought, by floor division
/// of the payment by the price of the current phase, or the reason for refusing it.
pub open spec fn purchase(ico: ICOState, now: i64, amount_sol: u64) -> Result<
    int,
    MyContractError,
> {
    match current_phase(ico, now) {
        None => Err(MyContractError::SaleNotActive),
        Some(i) => {
            let tokens = amount_sol as int / ico.phase_details@[i].token_price as int;
            if ico.total_tokens_sold + tokens > ico.total_tokens_allocated {
                Err(MyContractError::OverPurchase)
            } else {
                Ok(tokens)
            }
        },
    }
}

/// The sale after a purchase was tried: `total_tokens_sold` grown by the tokens bought,
/// or the sale as it was when the purchase is refused.
pub open spec fn after_purchase(ico: ICOState, now: i64, amount_sol: u64) -> ICOState {
    match purchase(ico, now, amount_sol) {
        Ok(tokens) => (ICOState {
            total_tokens_sold: (ico.total_tokens_sold + tokens) as u64,
            ..ico
        }),
        Err(_) => ico,
    }
}

/// The sale after a sequence of attempted purchases, each given by its time and its
/// payment, in order.
pub open spec fn after_purchases(ico: ICOState, requests: Seq<(i64, u64)>) -> ICOState
    decreases requests.len(),
{
    if requests.len() == 0 {
        ico
    } else {
        let earlier = after_purchases(ico, requests.drop_last());
        after_purchase(earlier, requests.last().0, requests.last().1)
    }
}

proof fn lemma_phase_walk_in_range(phases: Seq<PhaseDetail>, from: int, remaining: int)
    requires
        0 <= from < phases.len(),
    ensures
        from <= phase_walk(phases, from, remaining) < phases.len(),
    decreases phases.len() - from,
{
    if !(from + 1 >= phases.len() || remaining <= phases[from].duration) {
        lemma_phase_walk_in_range(phases, from + 1, remaining - phases[from].duration);
    }
}

/// The phase that prices a purchase at the clock's time.
pub fn determine_current_phase(ico_state: &ICOState, clock: &Clock) -> (phase: Option<u8>)
    requires
        valid_schedule(ico_state.phase_details@),
    ensures
        match phase {
            Some(i) => {
                &&& current_phase(*ico_state, clock.unix_timestamp) == Some(i as int)
                &&& i < ico_state.phase_details@.len()
            },
            None => current_phase(*ico_state, clock.unix_timestamp) is None,
        },
{
    let now = clock.unix_timestamp;
    let count = ico_state.phase_details.len();
    if now < ico_state.start_timestamp || count == 0 {
        return None;
    }
    let ghost phases = ico_state.phase_details@;
    let ghost elapsed = now - ico_state.start_timestamp;
    let mut remaining: i128 = now as i128 - ico_state.start_timestamp as i128;
    let mut i: usize = 0;
    while i + 1 < count && remaining > ico_state.phase_details[i].duration as i128
        invariant
            count == phases.len(),
            phases == ico_state.phase_details@,
            valid_schedule(phases),
            0 <= i < count,
            0 <= remaining <= elapsed,
            phase_walk(phases, 0, elapsed) == phase_walk(phases, i as int, remaining as int),
        decreases count - i,
    {
        assert(phases[i as int].wf());
        remaining = remaining - ico_state.phase_details[i].duration as i128;
        i += 1;
    }
    assert(phase_walk(phases, i as int, remaining as int) == i);
    Some(i as u8)
}

impl ICOState {
    /// What a purchase for `amount_paid` at the clock's time would yield, or why it
    /// would be refused. Nothing changes.
    pub fn quote_purchase(&self, clock: &Clock, amount_paid: u64) -> (quote: Result<
        u64,
        MyContractError,
    >)
        requires
            self.wf(),
        ensures
            match quote {
                Ok(tokens) => purchase(*self, clock.unix_timestamp, amount_paid) == Ok::<
                    int,
                    MyContractError,
                >(tokens as int),
                Err(e) => purchase(*self, clock.unix_timestamp, amount_paid) == Err::<
                    int,
                    MyContractError,
                >(e),
            },
    {
        let phase = match determine_current_phase(self, clock) {
            Some(i) => i,
            None => {
                return Err(MyContractError::SaleNotActive);
            },
        };
        assert(self.phase_details@[phase as int].wf());
        let token_price = self.phase_details[phase as usize].token_price;
        let tokens_to_mint = amount_paid / token_price;
        if tokens_to_mint > self.total_tokens_allocated - self.total_tokens_sold {
            return Err(MyContractError::OverPurchase);
        }
        Ok(tokens_to_mint)
    }

    /// Admits a purchase against the cap, or refuses it and changes nothing. This is the
    /// only operation that changes `total_tokens_sold`.
    pub fn admit_purchase(&mut self, clock: &Clock, amount_paid: u64) -> (admitted: Result<
        u64,
        MyContractError,
    >)
        requires
            old(self).wf(),
        ensures
            *final(self) == after_purchase(*old(self), clock.unix_timestamp, amount_paid),
            final(self).wf(),
            match admitted {
                Ok(tokens) => purchase(*old(self), clock.unix_timestamp, amount_paid) == Ok::<
                    int,
                    MyContractError,
                >(tokens as int),
                Err(e) => purchase(*old(self), clock.unix_timestamp, amount_paid) == Err::<
                    int,
                    MyContractError,
                >(e),
            },
    {
        let tokens_to_mint = self.quote_purchase(clock, amount_paid)?;
        self.total_tokens_sold = self.total_tokens_sold + tokens_to_mint;
        Ok(tokens_to_mint)
    }
}

/// The records that starting the sale works on: the sale itself, absent until started.
pub struct StartIco {
    pub ico_state: Option<ICOState>,
}

/// Starts the sale with its schedule and cap. Only an administrator may do so, and only
/// once; `is_admin` is the host's answer to whether the caller is one.
pub fn start_ico(
    accounts: &mut StartIco,
    is_admin: bool,
    start_timestamp: i64,
    total_tokens_allocated: u64,
    phase_details: Vec<PhaseDetail>,
) -> (started: Result<(), MyContractError>)
    requires
        valid_schedule(phase_details@),
    ensures
        started == if !is_admin {
            Err::<(), MyContractError>(MyContractError::Unauthorized)
        } else if old(accounts).ico_state is Some {
            Err(MyContractError::DuplicateInitialization)
        } else {
            Ok(())
        },
        started is Err ==> *final(accounts) == *old(accounts),
        started is Ok ==> final(accounts).ico_state == Some(
            ICOState {
                start_timestamp,
                current_phase: 0,
                total_tokens_sold: 0,
                phase_details,
                total_tokens_allocated,
            },
        ) && final(accounts).ico_state->0.wf(),
{
    if !is_admin {
        return Err(MyContractError::Unauthorized);
    }
    if accounts.ico_state.is_some() {
        return Err(MyContractError::DuplicateInitialization);
    }
    accounts.ico_state = Some(
        ICOState {
            start_timestamp,
            current_phase: 0,
            total_tokens_sold: 0,
            phase_details,
            total_tokens_allocated,
        },
    );
    Ok(())
}

/// Tokens minted into the rewards reserve when the token is created, in whole tokens.
pub const REWARDS_SUPPLY: u64 = 4_000_000;

/// Tokens minted for distribution when the token is created, in whole tokens.
pub const DISTRIBUTION_SUPPLY: u64 = 10_000_000;

/// The largest number of decimals with which both initial supplies fit a `u64`.
pub const MAX_DECIMALS: u8 = 12;

/// Ten to the power `n`.
pub open spec fn pow10(n: nat) -> nat
    decreases n,
{
    if n == 0 {
        1
    } else {
        10 * pow10((n - 1) as nat)
    }
}

proof fn lemma_pow10_increases(a: nat, b: nat)
    requires
        a <= b,
    ensures
        pow10(a) <= pow10(b),
    decreases b,
{
    if a < b {
        lemma_pow10_increases(a, (b - 1) as nat);
    }
}

/// What creating the token needs from its mint: the number of decimals.
pub struct InitializeSolhitToken {
    pub decimals: u8,
}

/// The two amounts minted when the token is created, in the token's smallest unit, and
/// where the distribution supply is headed.
#[derive(Clone, Copy, Debug, PartialEq, Eq)]
pub struct InitialSupply {
    pub rewards_amount: u64,
    pub distribution_amount: u64,
    pub destination: Pubkey,
}

impl InitializeSolhitToken {
    /// The amounts to mint for the rewards reserve and for distribution.
    pub fn execute(
        ctx: &InitializeSolhitToken,
        exchange_or_other_destination: Pubkey,
    ) -> (supply: InitialSupply)
        requires
            ctx.decimals <= MAX_DECIMALS,
        ensures
            supply.rewards_amount == REWARDS_SUPPLY * pow10(ctx.decimals as nat),
            supply.distribution_amount == DISTRIBUTION_SUPPLY * pow10(ctx.decimals as nat),
            supply.destination == exchange_or_other_destination,
    {
        let mut unit: u64 = 1;
        let mut i: u8 = 0;
        proof {
            reveal_with_fuel(pow10, 13);
            assert(pow10(12) == 1_000_000_000_000);
        }
        while i < ctx.decimals
            invariant
                i <= ctx.decimals <= 12,
                unit == pow10(i as nat),
                pow10(12) == 1_000_000_000_000,
            decreases ctx.decimals - i,
        {
            proof {
                lemma_pow10_increases((i + 1) as nat, 12);
            }
            unit = unit * 10;
            i += 1;
        }
        proof {
            lemma_pow10_increases(i as nat, 12);
        }
        InitialSupply {
            rewards_amount: REWARDS_SUPPLY * unit,
            distribution_amount: DISTRIBUTION_SUPPLY * unit,
            destination: exchange_or_other_destination,
        }
    }
}

/// The records that a purchase works on, and the clock it is made at.
pub struct BuyTokens {
    pub ico_state: ICOState,
    pub user_state: UserState,
    pub clock: Clock,
}

/// Whether a purchase can be worked on: the sale is well formed, and the buyer's
/// purchased amount stays within the amount type where the purchase is admitted.
pub open spec fn purchase_fits(ctx: BuyTokens, amount_sol: u64) -> bool {
    &&& ctx.ico_state.wf()
    &&& purchase(ctx.ico_state, ctx.clock.unix_timestamp, amount_sol) matches Ok(tokens)
        ==> ctx.user_state.amount_purchased + tokens <= u64::MAX
}

impl BuyTokens {
    /// Decides [`purchase_fits`].
    pub fn fits(ctx: &BuyTokens, amount_sol: u64) -> (ok: bool)
        ensures
            ok == purchase_fits(*ctx, amount_sol),
    {
        if !ctx.ico_state.is_well_formed() {
            return false;
        }
        match ctx.ico_state.quote_purchase(&ctx.clock, amount_sol) {
            Ok(tokens) => tokens <= u64::MAX - ctx.user_state.amount_purchased,
            Err(_) => true,
        }
    }

    /// Buys tokens for `amount_sol` at the price of the current phase. The result is the
    /// number of tokens to mint to the buyer. A refused purchase changes nothing.
    pub fn buy_tokens(ctx: &mut BuyTokens, amount_sol: u64) -> (bought: Result<
        u64,
        MyContractError,
    >)
        requires
            purchase_fits(*old(ctx), amount_sol),
        ensures
            final(ctx).clock == old(ctx).clock,
            final(ctx).ico_state == after_purchase(
                old(ctx).ico_state,
                old(ctx).clock.unix_timestamp,
                amount_sol,
            ),
            final(ctx).ico_state.wf(),
            match bought {
                Ok(tokens) => {
                    &&& purchase(old(ctx).ico_state, old(ctx).clock.unix_timestamp, amount_sol)
                        == Ok::<int, MyContractError>(tokens as int)
                    &&& final(ctx).user_state == (UserState {
                        amount_purchased: (old(ctx).user_state.amount_purchased + tokens) as u64,
                        ..old(ctx).user_state
                    })
                },
                Err(e) => {
                    &&& purchase(old(ctx).ico_state, old(ctx).clock.unix_timestamp, amount_sol)
                        == Err::<int, MyContractError>(e)
                    &&& *final(ctx) == *old(ctx)
                },
            },
    {
        let clock = ctx.clock;
        let tokens_to_mint = ctx.ico_state.admit_purchase(&clock, amount_sol)?;
        ctx.user_state.amount_purchased = ctx.user_state.amount_purchased + tokens_to_mint;
        Ok(tokens_to_mint)
    }
}

/// The same schedule and the same time always give the same phase.
pub proof fn lemma_current_phase_deterministic(a: ICOState, b: ICOState, now: i64)
    requires
        a.start_timestamp == b.start_timestamp,
        a.phase_details@ == b.phase_details@,
    ensures
        current_phase(a, now) == current_phase(b, now),
{
}

proof fn lemma_phase_walk_windows(phases: Seq<PhaseDetail>, from: int, elapsed: int)
    requires
        0 <= from < phases.len(),
    ensures
        ({
            let k = phase_walk(phases, from, elapsed - phase_end(phases, from - 1));
            &&& from <= k < phases.len()
            &&& forall|j: int| from <= j < k ==> elapsed > #[trigger] phase_end(phases, j)
            &&& elapsed <= phase_end(phases, k) || k == phases.len() - 1
        }),
    decreases phases.len() - from,
{
    let remaining = elapsed - phase_end(phases, from - 1);
    if !(from + 1 >= phases.len() || remaining <= phases[from].duration) {
        lemma_phase_walk_windows(phases, from + 1, elapsed);
    }
}

/// The current phase is the first one whose end the elapsed time has not passed, and
/// the last phase once the elapsed time has passed every end.
pub proof fn lemma_current_phase_is_first_open_window(ico: ICOState, now: i64)
    requires
        current_phase(ico, now) is Some,
    ensures
        ({
            let k = current_phase(ico, now)->0;
            let elapsed = now - ico.start_timestamp;
            &&& 0 <= k < ico.phase_details@.len()
            &&& forall|j: int|
                0 <= j < k ==> elapsed > #[trigger] phase_end(ico.phase_details@, j)
            &&& elapsed <= phase_end(ico.phase_details@, k) || k == ico.phase_details@.len() - 1
        }),
{
    lemma_phase_walk_windows(ico.phase_details@, 0, now - ico.start_timestamp);
}

/// However many purchases are tried and in whatever order, the sale stays well formed:
/// the tokens sold never exceed the cap, never shrink, and the cap does not move.
pub proof fn lemma_purchases_never_exceed_cap(ico: ICOState, requests: Seq<(i64, u64)>)
    requires
        ico.wf(),
    ensures
        after_purchases(ico, requests).wf(),
        after_purchases(ico, requests).total_tokens_sold <= ico.total_tokens_allocated,
        after_purchases(ico, requests).total_tokens_allocated == ico.total_tokens_allocated,
        after_purchases(ico, requests).total_tokens_sold >= ico.total_tokens_sold,
    decreases requests.len(),
{
    if requests.len() > 0 {
        lemma_purchases_never_exceed_cap(ico, requests.drop_last());
        let earlier = after_purchases(ico, requests.drop_last());
        let now = requests.last().0;
        if current_phase(earlier, now) is Some {
            lemma_phase_walk_in_range(
                earlier.phase_details@,
                0,
                now - earlier.start_timestamp,
            );
        }
    }
}

} // verus!
