use vstd::prelude::*;
use crate::address::Address;
use crate::errors::LaunchpadError;
use crate::state::{Launch, LaunchStatus, UserPosition};

verus! {

/// The records and balances that a sell reads and writes.
pub struct SellTokens {
    pub launch: Launch,
    /// Currency held by the launch record: the reserve that pays sellers.
    pub launch_lamports: u64,
    /// The seller's position in this launch; a sell needs one that already exists.
    pub user_position: UserPosition,
    pub seller: Address,
    /// Currency held by the seller.
    pub seller_lamports: u64,
}

/// What a settled sell moves.
#[derive(Clone, Copy, Debug)]
pub struct SellReceipt {
    /// Tokens that go from the seller to the launch reserve: the caller carries out
    /// this transfer.
    pub tokens_in: u64,
    /// Currency that went from the launch reserve to the seller.
    pub sol_out: u64,
}

impl SellTokens {
    /// Currency quoted for `token_amount` at the spot price before the trade.
    pub open spec fn quote(&self, token_amount: u64) -> nat {
        self.launch.sol_for_tokens(token_amount as nat)
    }

    /// Why a sell is refused, if it is: the first condition that fails, in this order.
    pub open spec fn refusal(&self, token_amount: u64, min_sol_out: u64) -> Option<
        LaunchpadError,
    > {
        let sol = self.quote(token_amount);
        if self.launch.status != LaunchStatus::Active {
            Some(LaunchpadError::LaunchNotActive)
        } else if token_amount == 0 {
            Some(LaunchpadError::AmountTooSmall)
        } else if self.launch.current_price() > u64::MAX || sol > u64::MAX {
            Some(LaunchpadError::ArithmeticOverflow)
        } else if sol < min_sol_out {
            Some(LaunchpadError::SlippageExceeded)
        } else if sol > self.launch_lamports {
            Some(LaunchpadError::InsufficientSOL)
        } else if self.seller_lamports + sol > u64::MAX {
            Some(LaunchpadError::ArithmeticOverflow)
        } else if token_amount > self.launch.tokens_sold {
            Some(LaunchpadError::ArithmeticUnderflow)
        } else if sol > self.launch.sol_raised {
            Some(LaunchpadError::ArithmeticUnderflow)
        } else if self.user_position.tokens_sold + token_amount > u64::MAX {
            Some(LaunchpadError::ArithmeticOverflow)
        } else if self.user_position.sol_received + sol > u64::MAX {
            Some(LaunchpadError::ArithmeticOverflow)
        } else {
            None
        }
    }

    /// The records and balances after a sell of `token_amount` that is not refused: the
    /// quoted currency has moved from the reserve to the seller, the launch counts the
    /// tokens and the currency back, and the position counts both.
    pub open spec fn settled(&self, token_amount: u64) -> SellTokens {
        let sol = self.quote(token_amount);
        SellTokens {
            launch: Launch {
                tokens_sold: (self.launch.tokens_sold - token_amount) as u64,
                sol_raised: (self.launch.sol_raised - sol) as u64,
                ..self.launch
            },
            launch_lamports: (self.launch_lamports - sol) as u64,
            seller_lamports: (self.seller_lamports + sol) as u64,
            user_position: UserPosition {
                tokens_sold: (self.user_position.tokens_sold + token_amount) as u64,
                sol_received: (self.user_position.sol_received + sol) as u64,
                ..self.user_position
            },
            ..*self
        }
    }
}

/// Sells `token_amount` tokens back at the spot price before the trade. No fee is charged.
///
/// The sell is refused unless the launch is active, the amount is positive, the quote
/// reaches `min_sol_out` and is covered by the reserve, and every counter stays within
/// its range. A refused sell changes nothing. A settled sell moves the currency from the
/// reserve to the seller, updates the launch and the position and returns the amounts.
pub fn sell_tokens(ctx: &mut SellTokens, token_amount: u64, min_sol_out: u64) -> (r: Result<
    SellReceipt,
    LaunchpadError,
>)
    ensures
        match r {
            Ok(receipt) => {
                &&& old(ctx).refusal(token_amount, min_sol_out) is None
                &&& receipt.tokens_in == token_amount
                &&& receipt.sol_out == old(ctx).quote(token_amount)
                &&& *final(ctx) == old(ctx).settled(token_amount)
            },
            Err(e) => {
                &&& old(ctx).refusal(token_amount, min_sol_out) == Some(e)
                &&& *final(ctx) == *old(ctx)
            },
        },
        r matches Ok(receipt) ==> {
            &&& min_sol_out <= receipt.sol_out <= old(ctx).launch_lamports
            &&& final(ctx).launch.tokens_sold == old(ctx).launch.tokens_sold - token_amount
            &&& final(ctx).launch.sol_raised == old(ctx).launch.sol_raised - receipt.sol_out
            &&& final(ctx).launch_lamports == old(ctx).launch_lamports - receipt.sol_out
            &&& final(ctx).seller_lamports == old(ctx).seller_lamports + receipt.sol_out
            &&& final(ctx).user_position.tokens_sold == old(ctx).user_position.tokens_sold
                + token_amount
            &&& final(ctx).user_position.sol_received == old(ctx).user_position.sol_received
                + receipt.sol_out
        },
        final(ctx).launch_lamports + final(ctx).seller_lamports == old(ctx).launch_lamports + old(
            ctx,
        ).seller_lamports,
        final(ctx).launch.same_config(&old(ctx).launch),
        final(ctx).launch.status == old(ctx).launch.status,
        final(ctx).launch.creator_fee_earned == old(ctx).launch.creator_fee_earned,
        old(ctx).launch.wf() ==> final(ctx).launch.wf(),
        final(ctx).user_position.grown_from(&old(ctx).user_position),
{
    if ctx.launch.status != LaunchStatus::Active {
        return Err(LaunchpadError::LaunchNotActive);
    }
    if token_amount == 0 {
        return Err(LaunchpadError::AmountTooSmall);
    }
    let sol_to_receive: u64 = match ctx.launch.calculate_sol_for_tokens(token_amount) {
        Ok(sol) => sol,
        Err(e) => {
            return Err(e);
        },
    };
    if sol_to_receive < min_sol_out {
        return Err(LaunchpadError::SlippageExceeded);
    }
    if sol_to_receive > ctx.launch_lamports {
        return Err(LaunchpadError::InsufficientSOL);
    }
    let launch_lamports: u64 = ctx.launch_lamports - sol_to_receive;
    let seller_lamports: u64 = match ctx.seller_lamports.checked_add(sol_to_receive) {
        Some(sum) => sum,
        None => {
            return Err(LaunchpadError::ArithmeticOverflow);
        },
    };
    let tokens_sold: u64 = match ctx.launch.tokens_sold.checked_sub(token_amount) {
        Some(left) => left,
        None => {
            return Err(LaunchpadError::ArithmeticUnderflow);
        },
    };
    let sol_raised: u64 = match ctx.launch.sol_raised.checked_sub(sol_to_receive) {
        Some(left) => left,
        None => {
            return Err(LaunchpadError::ArithmeticUnderflow);
        },
    };
    let position_tokens_sold: u64 = match ctx.user_position.tokens_sold.checked_add(
        token_amount,
    ) {
        Some(sum) => sum,
        None => {
            return Err(LaunchpadError::ArithmeticOverflow);
        },
    };
    let position_sol_received: u64 = match ctx.user_position.sol_received.checked_add(
        sol_to_receive,
    ) {
        Some(sum) => sum,
        None => {
            return Err(LaunchpadError::ArithmeticOverflow);
        },
    };

    ctx.launch_lamports = launch_lamports;
    ctx.seller_lamports = seller_lamports;
    ctx.launch.tokens_sold = tokens_sold;
    ctx.launch.sol_raised = sol_raised;
    ctx.user_position.tokens_sold = position_tokens_sold;
    ctx.user_position.sol_received = position_sol_received;

    Ok(SellReceipt { tokens_in: token_amount, sol_out: sol_to_receive })
}

} // verus!
