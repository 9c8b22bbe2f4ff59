use vstd::prelude::*;
use crate::address::Address;
use crate::curve::{lemma_round_trip, spec_round_trip_loss};
use crate::errors::LaunchpadError;
use crate::state::{Launch, LaunchStatus, LaunchpadConfig, UserPosition};

verus! {

/// Basis points in one whole.
pub const BPS_DENOMINATOR: u64 = 10_000;

/// Protocol fee on a buy: `fee_bps` basis points of the gross amount, rounded down.
pub open spec fn spec_fee(sol_amount: nat, fee_bps: nat) -> nat {
    sol_amount * fee_bps / 10_000
}

/// The creator's half of a fee, rounded down.
pub open spec fn spec_creator_fee(fee: nat) -> nat {
    fee / 2
}

/// The community pool's half of a fee: what the creator's half leaves.
pub open spec fn spec_community_fee(fee: nat) -> nat {
    (fee - fee / 2) as nat
}

/// The records that a buy reads and writes.
pub struct BuyTokens {
    pub launch: Launch,
    /// Address of the launch record.
    pub launch_key: Address,
    /// The buyer's position in this launch; all-zero before the first buy.
    pub user_position: UserPosition,
    /// Bump of the position record, stored when the position is first used.
    pub user_position_bump: u8,
    pub buyer: Address,
    pub config: LaunchpadConfig,
}

/// What a settled buy moves: the caller carries out these transfers.
#[derive(Clone, Copy, Debug)]
pub struct BuyReceipt {
    /// Tokens that go from the launch reserve to the buyer.
    pub tokens_out: u64,
    /// Currency that goes from the buyer into the launch reserve.
    pub net_sol: u64,
    /// Currency that goes from the buyer to the community pool.
    pub community_fee: u64,
    /// Share of the fee credited to the creator; it is part of no transfer.
    pub creator_fee: u64,
}

impl BuyTokens {
    /// Tokens quoted for `sol_amount` at the spot price before the trade.
    pub open spec fn quote(&self, sol_amount: u64) -> nat {
        self.launch.tokens_for_sol(sol_amount as nat)
    }

    /// Fee charged on `sol_amount` under the configured rate.
    pub open spec fn fee(&self, sol_amount: u64) -> nat {
        spec_fee(sol_amount as nat, self.config.fee_percentage as nat)
    }

    /// Why a buy is refused, if it is: the first condition that fails, in this order.
    pub open spec fn refusal(&self, sol_amount: u64, min_tokens_out: u64) -> Option<
        LaunchpadError,
    > {
        let tokens = self.quote(sol_amount);
        let fee = self.fee(sol_amount);
        if self.launch.status != LaunchStatus::Active {
            Some(LaunchpadError::LaunchNotActive)
        } else if sol_amount == 0 {
            Some(LaunchpadError::AmountTooSmall)
        } else if self.launch.current_price() > u64::MAX || tokens > u64::MAX {
            Some(LaunchpadError::ArithmeticOverflow)
        } else if tokens < min_tokens_out {
            Some(LaunchpadError::SlippageExceeded)
        } else if self.launch.tokens_sold > self.launch.total_sell_amount {
            Some(LaunchpadError::ArithmeticUnderflow)
        } else if tokens > self.launch.total_sell_amount - self.launch.tokens_sold {
            Some(LaunchpadError::InsufficientTokens)
        } else if sol_amount * self.config.fee_percentage > u64::MAX {
            Some(LaunchpadError::ArithmeticOverflow)
        } else if fee > sol_amount {
            Some(LaunchpadError::ArithmeticUnderflow)
        } else if self.launch.sol_raised + (sol_amount - fee) > u64::MAX {
            Some(LaunchpadError::ArithmeticOverflow)
        } else if self.launch.creator_fee_earned + spec_creator_fee(fee) > u64::MAX {
            Some(LaunchpadError::ArithmeticOverflow)
        } else if self.user_position.tokens_bought + tokens > u64::MAX {
            Some(LaunchpadError::ArithmeticOverflow)
        } else if self.user_position.sol_spent + sol_amount > u64::MAX {
            Some(LaunchpadError::ArithmeticOverflow)
        } else {
            None
        }
    }

    /// The transfers of a buy of `sol_amount` that is not refused.
    pub open spec fn receipt(&self, sol_amount: u64) -> BuyReceipt {
        let fee = self.fee(sol_amount);
        BuyReceipt {
            tokens_out: self.quote(sol_amount) as u64,
            net_sol: (sol_amount - fee) as u64,
            community_fee: spec_community_fee(fee) as u64,
            creator_fee: spec_creator_fee(fee) as u64,
        }
    }

    /// The records after a buy of `sol_amount` that is not refused: the launch counts the
    /// tokens, the net currency and the creator's fee; the position counts the tokens and
    /// the gross currency, and takes the buyer's identity if it had none.
    pub open spec fn settled(&self, sol_amount: u64) -> BuyTokens {
        let receipt = self.receipt(sol_amount);
        let fresh = self.user_position.user.is_default();
        BuyTokens {
            launch: Launch {
                tokens_sold: (self.launch.tokens_sold + receipt.tokens_out) as u64,
                sol_raised: (self.launch.sol_raised + receipt.net_sol) as u64,
                creator_fee_earned: (self.launch.creator_fee_earned + receipt.creator_fee) as u64,
                ..self.launch
            },
            user_position: UserPosition {
                user: if fresh {
                    self.buyer
                } else {
                    self.user_position.user
                },
                launch: if fresh {
                    self.launch_key
                } else {
                    self.user_position.launch
                },
                bump: if fresh {
                    self.user_position_bump
                } else {
                    self.user_position.bump
                },
                tokens_bought: (self.user_position.tokens_bought + receipt.tokens_out) as u64,
                sol_spent: (self.user_position.sol_spent + sol_amount) as u64,
                ..self.user_position
            },
            ..*self
        }
    }
}

/// Selling back what a settled buy delivered, at the sold count before the buy, returns
/// the gross amount less what the quote lost to rounding: never more than the buyer paid.
/// It returns no more than the net amount exactly where the fee is no larger than that
/// rounding loss.
pub proof fn lemma_buy_then_sell_back(ctx: BuyTokens, sol_amount: u64, min_tokens_out: u64)
    requires
        ctx.refusal(sol_amount, min_tokens_out) is None,
    ensures
        ctx.launch.sol_for_tokens(ctx.receipt(sol_amount).tokens_out as nat)
            + spec_round_trip_loss(ctx.launch.current_price(), sol_amount as nat) == sol_amount,
        ctx.launch.sol_for_tokens(ctx.receipt(sol_amount).tokens_out as nat) <= sol_amount,
        ctx.launch.sol_for_tokens(ctx.receipt(sol_amount).tokens_out as nat) <= ctx.receipt(
            sol_amount,
        ).net_sol <==> ctx.fee(sol_amount) <= spec_round_trip_loss(
            ctx.launch.current_price(),
            sol_amount as nat,
        ),
{
    lemma_round_trip(ctx.launch.current_price(), sol_amount as nat);
}

/// Buys tokens for `sol_amount` of currency at the spot price before the trade.
///
/// The buy is refused unless the launch is active, the amount is positive, the quote
/// reaches `min_tokens_out` and fits in what the sale has left, and every counter stays
/// within 64 bits. A refused buy changes nothing. A settled buy updates the launch and
/// the buyer's position and returns the amounts to transfer.
pub fn buy_tokens(ctx: &mut BuyTokens, sol_amount: u64, min_tokens_out: u64) -> (r: Result<
    BuyReceipt,
    LaunchpadError,
>)
    ensures
        match r {
            Ok(receipt) => {
                &&& old(ctx).refusal(sol_amount, min_tokens_out) is None
                &&& receipt == old(ctx).receipt(sol_amount)
                &&& *final(ctx) == old(ctx).settled(sol_amount)
            },
            Err(e) => {
                &&& old(ctx).refusal(sol_amount, min_tokens_out) == Some(e)
                &&& *final(ctx) == *old(ctx)
            },
        },
        r matches Ok(receipt) ==> {
            &&& receipt.tokens_out >= min_tokens_out
            &&& receipt.net_sol + receipt.creator_fee + receipt.community_fee == sol_amount
            &&& receipt.creator_fee <= receipt.community_fee <= receipt.creator_fee + 1
            &&& final(ctx).launch.tokens_sold == old(ctx).launch.tokens_sold + receipt.tokens_out
            &&& final(ctx).launch.tokens_sold <= final(ctx).launch.total_sell_amount
            &&& final(ctx).launch.sol_raised == old(ctx).launch.sol_raised + receipt.net_sol
            &&& final(ctx).launch.creator_fee_earned == old(ctx).launch.creator_fee_earned
                + receipt.creator_fee
            &&& final(ctx).user_position.tokens_bought == old(ctx).user_position.tokens_bought
                + receipt.tokens_out
            &&& final(ctx).user_position.sol_spent == old(ctx).user_position.sol_spent
                + sol_amount
        },
        final(ctx).launch.same_config(&old(ctx).launch),
        final(ctx).launch.status == old(ctx).launch.status,
        old(ctx).launch.wf() ==> final(ctx).launch.wf(),
        final(ctx).user_position.grown_from(&old(ctx).user_position),
{
    if ctx.launch.status != LaunchStatus::Active {
        return Err(LaunchpadError::LaunchNotActive);
    }
    if sol_amount == 0 {
        return Err(LaunchpadError::AmountTooSmall);
    }
    let tokens_to_receive: u64 = match ctx.launch.calculate_tokens_for_sol(sol_amount) {
        Ok(tokens) => tokens,
        Err(e) => {
            return Err(e);
        },
    };
    if tokens_to_receive < min_tokens_out {
        return Err(LaunchpadError::SlippageExceeded);
    }
    let remaining_tokens: u64 = match ctx.launch.total_sell_amount.checked_sub(
        ctx.launch.tokens_sold,
    ) {
        Some(left) => left,
        None => {
            return Err(LaunchpadError::ArithmeticUnderflow);
        },
    };
    if tokens_to_receive > remaining_tokens {
        return Err(LaunchpadError::InsufficientTokens);
    }
    let fee_amount: u64 = match sol_amount.checked_mul(ctx.config.fee_percentage as u64) {
        Some(product) => product / BPS_DENOMINATOR,
        None => {
            return Err(LaunchpadError::ArithmeticOverflow);
        },
    };
    let creator_fee: u64 = fee_amount / 2;
    let community_fee: u64 = fee_amount - creator_fee;
    let net_sol: u64 = match sol_amount.checked_sub(fee_amount) {
        Some(net) => net,
        None => {
            return Err(LaunchpadError::ArithmeticUnderflow);
        },
    };
    let tokens_sold: u64 = ctx.launch.tokens_sold + tokens_to_receive;
    let sol_raised: u64 = match ctx.launch.sol_raised.checked_add(net_sol) {
        Some(sum) => sum,
        None => {
            return Err(LaunchpadError::ArithmeticOverflow);
        },
    };
    let creator_fee_earned: u64 = match ctx.launch.creator_fee_earned.checked_add(creator_fee) {
        Some(sum) => sum,
        None => {
            return Err(LaunchpadError::ArithmeticOverflow);
        },
    };
    let tokens_bought: u64 = match ctx.user_position.tokens_bought.checked_add(
        tokens_to_receive,
    ) {
        Some(sum) => sum,
        None => {
            return Err(LaunchpadError::ArithmeticOverflow);
        },
    };
    let sol_spent: u64 = match ctx.user_position.sol_spent.checked_add(sol_amount) {
        Some(sum) => sum,
        None => {
            return Err(LaunchpadError::ArithmeticOverflow);
        },
    };

    ctx.launch.tokens_sold = tokens_sold;
    ctx.launch.sol_raised = sol_raised;
    ctx.launch.creator_fee_earned = creator_fee_earned;

    let unused: Address = Address::default();
    if ctx.user_position.user == unused {
        proof {
            Address::lemma_default_unique(old(ctx).user_position.user, unused);
        }
        ctx.user_position.user = ctx.buyer;
        ctx.user_position.launch = ctx.launch_key;
        ctx.user_position.bump = ctx.user_position_bump;
    } else {
        proof {
            if old(ctx).user_position.user.is_default() {
                Address::lemma_default_unique(old(ctx).user_position.user, unused);
            }
        }
    }
    ctx.user_position.tokens_bought = tokens_bought;
    ctx.user_position.sol_spent = sol_spent;

    Ok(BuyReceipt { tokens_out: tokens_to_receive, net_sol, community_fee, creator_fee })
}

} // verus!
