use vstd::prelude::*;
use crate::instructions::buy_tokens::BuyTokens;
use crate::instructions::sell_tokens::SellTokens;
use crate::state::Launch;

verus! {

/// One trade offered to a launch, with the records it was offered on.
pub enum Trade {
    Buy { buy: BuyTokens, sol_amount: u64, min_tokens_out: u64 },
    Sell { sell: SellTokens, token_amount: u64, min_sol_out: u64 },
}

impl Trade {
    /// The launch as the trade found it.
    pub open spec fn launch_before(&self) -> Launch {
        match self {
            Trade::Buy { buy, .. } => buy.launch,
            Trade::Sell { sell, .. } => sell.launch,
        }
    }

    /// Whether the trade is settled rather than refused.
    pub open spec fn settles(&self) -> bool {
        match self {
            Trade::Buy { buy, sol_amount, min_tokens_out } => buy.refusal(
                *sol_amount,
                *min_tokens_out,
            ) is None,
            Trade::Sell { sell, token_amount, min_sol_out } => sell.refusal(
                *token_amount,
                *min_sol_out,
            ) is None,
        }
    }

    /// The launch as the trade left it: settled, or untouched where the trade is refused.
    pub open spec fn launch_after(&self) -> Launch {
        match self {
            Trade::Buy { buy, sol_amount, .. } => if self.settles() {
                buy.settled(*sol_amount).launch
            } else {
                buy.launch
            },
            Trade::Sell { sell, token_amount, .. } => if self.settles() {
                sell.settled(*token_amount).launch
            } else {
                sell.launch
            },
        }
    }

    /// Whether the trade was offered on a reserve of `reserve`. A buy does not look at
    /// the reserve.
    pub open spec fn finds_reserve(&self, reserve: int) -> bool {
        match self {
            Trade::Buy { .. } => true,
            Trade::Sell { sell, .. } => sell.launch_lamports == reserve,
        }
    }

    /// One trade on a well-formed launch leaves it well-formed, with the configuration
    /// and status it had, and leaves a reserve that was not negative not negative.
    pub proof fn lemma_keeps_invariant(&self, reserve: int)
        requires
            self.launch_before().wf(),
            self.finds_reserve(reserve),
            reserve >= 0,
        ensures
            self.launch_after().wf(),
            self.launch_after().same_config(&self.launch_before()),
            self.launch_after().status == self.launch_before().status,
            self.reserve_after(reserve) >= 0,
    {
    }

    /// The currency reserve after the trade, given the reserve before it: a settled buy
    /// pays its net amount in, a settled sell pays its quote out.
    pub open spec fn reserve_after(&self, reserve: int) -> int {
        match self {
            Trade::Buy { buy, sol_amount, .. } => if self.settles() {
                reserve + buy.receipt(*sol_amount).net_sol
            } else {
                reserve
            },
            Trade::Sell { sell, token_amount, .. } => if self.settles() {
                reserve - sell.quote(*token_amount)
            } else {
                reserve
            },
        }
    }
}

/// The currency reserve after the first `n` trades of a sequence that starts with a
/// reserve of `initial`.
pub open spec fn reserve_after_trades(trades: Seq<Trade>, initial: int, n: int) -> int
    decreases n,
{
    if n <= 0 {
        initial
    } else {
        trades[n - 1].reserve_after(reserve_after_trades(trades, initial, n - 1))
    }
}

/// Whether the trade at position `i` continues the trades before it: it finds the launch
/// as the trade before left it, and the reserve that the trades before left.
pub open spec fn continues(trades: Seq<Trade>, initial_reserve: int, i: int) -> bool {
    &&& i > 0 ==> trades[i].launch_before() == trades[i - 1].launch_after()
    &&& trades[i].finds_reserve(reserve_after_trades(trades, initial_reserve, i))
}

/// Whether a sequence of trades is one history of one launch that starts with a reserve
/// of `initial_reserve`: each trade continues the trades before it.
pub open spec fn is_history(trades: Seq<Trade>, initial_reserve: int) -> bool {
    forall|i: int| 0 <= i < trades.len() ==> #[trigger] continues(trades, initial_reserve, i)
}

/// Through any history of trades on a well-formed launch with a reserve that is not
/// negative, the launch stays well-formed, so that no more is sold than the sale offers;
/// its configuration and status stay what they were; and the reserve never becomes
/// negative.
pub proof fn lemma_history_keeps_invariant(trades: Seq<Trade>, initial_reserve: int, n: int)
    requires
        is_history(trades, initial_reserve),
        0 < n <= trades.len(),
        trades[0].launch_before().wf(),
        initial_reserve >= 0,
    ensures
        trades[n - 1].launch_after().wf(),
        trades[n - 1].launch_after().tokens_sold <= trades[n - 1].launch_after().total_sell_amount,
        trades[n - 1].launch_after().same_config(&trades[0].launch_before()),
        trades[n - 1].launch_after().status == trades[0].launch_before().status,
        reserve_after_trades(trades, initial_reserve, n) >= 0,
    decreases n,
{
    let trade = trades[n - 1];
    let reserve = reserve_after_trades(trades, initial_reserve, n - 1);
    assert(continues(trades, initial_reserve, n - 1));
    if n > 1 {
        lemma_history_keeps_invariant(trades, initial_reserve, n - 1);
    }
    trade.lemma_keeps_invariant(reserve);
}

} // verus!
