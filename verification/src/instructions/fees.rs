use vstd::prelude::*;
use crate::address::Address;
use crate::errors::LaunchpadError;
use crate::state::Launch;

verus! {

/// The record and balances that a claim of creator fees reads and writes.
pub struct ClaimCreatorFees {
    pub launch: Launch,
    /// Currency held by the launch record.
    pub launch_lamports: u64,
    /// The caller, who must be the creator of the launch.
    pub creator: Address,
    /// Currency held by the caller.
    pub creator_lamports: u64,
}

impl ClaimCreatorFees {
    /// Why a claim is refused, if it is: the first condition that fails, in this order.
    pub open spec fn refusal(&self) -> Option<LaunchpadError> {
        if self.creator != self.launch.creator {
            Some(LaunchpadError::InvalidAuthority)
        } else if self.launch.creator_fee_earned == 0 {
            Some(LaunchpadError::NoFeesToClaim)
        } else if self.launch.creator_fee_earned > self.launch_lamports {
            Some(LaunchpadError::ArithmeticUnderflow)
        } else if self.creator_lamports + self.launch.creator_fee_earned > u64::MAX {
            Some(LaunchpadError::ArithmeticOverflow)
        } else {
            None
        }
    }
}

/// Pays the accrued creator fee out of the launch reserve to the creator and resets the
/// accrual to zero. The status of the launch plays no part. A refused claim changes
/// nothing. Returns the amount paid.
pub fn claim_creator_fees(ctx: &mut ClaimCreatorFees) -> (r: Result<u64, LaunchpadError>)
    ensures
        match r {
            Ok(paid) => {
                &&& old(ctx).refusal() is None
                &&& paid == old(ctx).launch.creator_fee_earned
                &&& *final(ctx) == (ClaimCreatorFees {
                    launch: Launch { creator_fee_earned: 0, ..old(ctx).launch },
                    launch_lamports: (old(ctx).launch_lamports - paid) as u64,
                    creator_lamports: (old(ctx).creator_lamports + paid) as u64,
                    ..*old(ctx)
                })
            },
            Err(e) => {
                &&& old(ctx).refusal() == Some(e)
                &&& *final(ctx) == *old(ctx)
            },
        },
        r is Ok ==> final(ctx).launch.creator_fee_earned == 0,
        final(ctx).launch_lamports + final(ctx).creator_lamports == old(ctx).launch_lamports
            + old(ctx).creator_lamports,
        final(ctx).launch.same_config(&old(ctx).launch),
        final(ctx).launch.status == old(ctx).launch.status,
        old(ctx).launch.wf() ==> final(ctx).launch.wf(),
{
    if ctx.creator != ctx.launch.creator {
        return Err(LaunchpadError::InvalidAuthority);
    }
    if ctx.launch.creator_fee_earned == 0 {
        return Err(LaunchpadError::NoFeesToClaim);
    }
    let fee_amount: u64 = ctx.launch.creator_fee_earned;
    let launch_lamports: u64 = match ctx.launch_lamports.checked_sub(fee_amount) {
        Some(left) => left,
        None => {
            return Err(LaunchpadError::ArithmeticUnderflow);
        },
    };
    let creator_lamports: u64 = match ctx.creator_lamports.checked_add(fee_amount) {
        Some(sum) => sum,
        None => {
            return Err(LaunchpadError::ArithmeticOverflow);
        },
    };
    ctx.launch_lamports = launch_lamports;
    ctx.creator_lamports = creator_lamports;
    ctx.launch.creator_fee_earned = 0;
    Ok(fee_amount)
}

} // verus!
