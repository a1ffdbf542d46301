//! A sale whose phases are absolute windows of time.

use vstd::prelude::*;

verus! {

/// Why a purchase was refused.
#[derive(Clone, Copy, Debug, PartialEq, Eq, Structural)]
pub enum ErrorCode {
    /// The transaction is outside the ICO phase.
    OutsideICOPhase,
}

impl ErrorCode {
    /// The text shown to a caller for this failure.
    pub fn message(&self) -> (text: &'static str)
        ensures
            text@ == "The transaction is outside the ICO phase."@,
    {
        "The transaction is outside the ICO phase."
    }
}

/// A window of time, both ends included, and the price of a token within it.
#[derive(Clone, Copy, Debug, PartialEq, Eq)]
pub struct Phase {
    pub token_price: u64,
    pub start: i64,
    pub end: i64,
}

impl Phase {
    /// Whether `now` lies in the window.
    pub open spec fn covers(&self, now: i64) -> bool {
        self.start <= now <= self.end
    }
}

/// The phases of the sale, in the order in which they are looked up.
#[derive(Clone, Debug, PartialEq, Eq)]
pub struct ICOState {
    pub phases: Vec<Phase>,
}

/// Whether every phase has a price that can be divided by.
pub open spec fn priced(phases: Seq<Phase>) -> bool {
    forall|i: int| 0 <= i < phases.len() ==> (#[trigger] phases[i]).token_price > 0
}

/// Decides [`priced`].
pub fn check_priced(phases: &Vec<Phase>) -> (ok: bool)
    ensures
        ok == priced(phases@),
{
    let mut i: usize = 0;
    while i < phases.len()
        invariant
            i <= phases.len(),
            forall|j: int| 0 <= j < i ==> (#[trigger] phases@[j]).token_price > 0,
        decreases phases.len() - i,
    {
        if phases[i].token_price == 0 {
            return false;
        }
        i += 1;
    }
    true
}

/// Whether phase `i` is the first phase whose window holds `now`.
pub open spec fn is_current(phases: Seq<Phase>, now: i64, i: int) -> bool {
    &&& 0 <= i < phases.len()
    &&& phases[i].covers(now)
    &&& forall|j: int| 0 <= j < i ==> !(#[trigger] phases[j]).covers(now)
}

/// Whether some phase's window holds `now`.
pub open spec fn is_open(phases: Seq<Phase>, now: i64) -> bool {
    exists|i: int| 0 <= i < phases.len() && (#[trigger] phases[i]).covers(now)
}

impl ICOState {
    /// Every phase has a price that can be divided by.
    pub open spec fn wf(&self) -> bool {
        priced(self.phases@)
    }

    /// The first phase whose window holds `now`, if the sale is open then.
    pub fn current_phase(&self, now: i64) -> (phase: Option<&Phase>)
        ensures
            match phase {
                Some(p) => exists|i: int|
                    #[trigger] is_current(self.phases@, now, i) && *p == self.phases@[i],
                None => !is_open(self.phases@, now),
            },
    {
        let mut i: usize = 0;
        while i < self.phases.len()
            invariant
                i <= self.phases.len(),
                forall|j: int| 0 <= j < i ==> !(#[trigger] self.phases@[j]).covers(now),
            decreases self.phases.len() - i,
        {
            let phase = &self.phases[i];
            if now >= phase.start && now <= phase.end {
                assert(is_current(self.phases@, now, i as int));
                return Some(phase);
            }
            i += 1;
        }
        None
    }
}

/// The record that setting the schedule works on.
pub struct StartIco {
    pub ico_state: ICOState,
}

/// Sets the phases of the sale.
pub fn start_ico(accounts: &mut StartIco, phase_details: Vec<Phase>) -> (started: Result<
    (),
    ErrorCode,
>)
    requires
        priced(phase_details@),
    ensures
        started is Ok,
        final(accounts).ico_state.phases == phase_details,
        final(accounts).ico_state.wf(),
{
    accounts.ico_state.phases = phase_details;
    Ok(())
}

/// The record that pricing a purchase reads.
pub struct BuyTokens {
    pub ico_state: ICOState,
}

/// The tokens that `amount_sol` buys at `now`: the payment divided by the price of the
/// current phase, rounded down. Outside every phase nothing can be bought.
pub fn buy_tokens(accounts: &BuyTokens, amount_sol: u64, now: i64) -> (bought: Result<
    u64,
    ErrorCode,
>)
    requires
        accounts.ico_state.wf(),
    ensures
        match bought {
            Ok(tokens) => exists|i: int|
                #[trigger] is_current(accounts.ico_state.phases@, now, i) && tokens == amount_sol
                    / accounts.ico_state.phases@[i].token_price,
            Err(e) => e == ErrorCode::OutsideICOPhase && !is_open(
                accounts.ico_state.phases@,
                now,
            ),
        },
{
    if let Some(phase) = accounts.ico_state.current_phase(now) {
        let tokens_to_mint = amount_sol / phase.token_price;
        Ok(tokens_to_mint)
    } else {
        Err(ErrorCode::OutsideICOPhase)
    }
}

/// The same phases and the same time always give the same current phase.
pub proof fn lemma_current_is_unique(phases: Seq<Phase>, now: i64, i: int, j: int)
    requires
        is_current(phases, now, i),
        is_current(phases, now, j),
    ensures
        i == j,
{
}

} // verus!
