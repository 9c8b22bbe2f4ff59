use vstd::prelude::*;
use crate::address::Address;
use crate::errors::LaunchpadError;
use crate::state::Referral;

verus! {

/// The record that registering a referrer reads and writes.
pub struct AddReferral {
    /// The referral record of this launch and referrer; all-zero before it is first used.
    /// A record counts as unused while it names no referrer and has counted nothing.
    pub referral: Referral,
    /// Address of the launch record.
    pub launch_key: Address,
    /// Bump of the referral record.
    pub referral_bump: u8,
}

/// The referral record after `referrer` is registered in it: a record that was never
/// used is filled; any other record, one that names a referrer or has counted anything,
/// stays as it is.
pub open spec fn spec_add_referral(
    referral: Referral,
    referrer: Address,
    launch_key: Address,
    bump: u8,
) -> Referral {
    if referral.unused() {
        Referral {
            referrer: referrer,
            launch: launch_key,
            volume_generated: 0,
            rewards_earned: 0,
            rewards_claimed: 0,
            bump: bump,
        }
    } else {
        referral
    }
}

/// Registering a referrer overwrites nothing that has accrued: whatever the record and
/// whoever is registered, the three counters stay what they were, and a record that was
/// used before stays as it is.
pub proof fn lemma_add_referral_keeps_rewards(
    referral: Referral,
    referrer: Address,
    launch_key: Address,
    bump: u8,
)
    ensures
        spec_add_referral(referral, referrer, launch_key, bump).volume_generated
            == referral.volume_generated,
        spec_add_referral(referral, referrer, launch_key, bump).rewards_earned
            == referral.rewards_earned,
        spec_add_referral(referral, referrer, launch_key, bump).rewards_claimed
            == referral.rewards_claimed,
        !referral.unused() ==> spec_add_referral(referral, referrer, launch_key, bump)
            == referral,
{
}

/// Registering the same referrer for the same launch twice is the same as registering it
/// once.
pub proof fn lemma_add_referral_twice(
    referral: Referral,
    referrer: Address,
    launch_key: Address,
    bump: u8,
)
    ensures
        spec_add_referral(
            spec_add_referral(referral, referrer, launch_key, bump),
            referrer,
            launch_key,
            bump,
        ) == spec_add_referral(referral, referrer, launch_key, bump),
{
}

/// Registers `referrer` for a launch. A record that already names a referrer, or that
/// has counted anything, is left untouched. Never refused.
pub fn add_referral(ctx: &mut AddReferral, referrer: Address) -> (r: Result<(), LaunchpadError>)
    ensures
        r is Ok,
        *final(ctx) == (AddReferral {
            referral: spec_add_referral(
                old(ctx).referral,
                referrer,
                old(ctx).launch_key,
                old(ctx).referral_bump,
            ),
            ..*old(ctx)
        }),
        !old(ctx).referral.unused() ==> final(ctx).referral == old(ctx).referral,
        final(ctx).referral.volume_generated == old(ctx).referral.volume_generated,
        final(ctx).referral.rewards_earned == old(ctx).referral.rewards_earned,
        final(ctx).referral.rewards_claimed == old(ctx).referral.rewards_claimed,
        old(ctx).referral.wf() ==> final(ctx).referral.wf(),
{
    if ctx.referral.is_unused() {
        ctx.referral.referrer = referrer;
        ctx.referral.launch = ctx.launch_key;
        ctx.referral.volume_generated = 0;
        ctx.referral.rewards_earned = 0;
        ctx.referral.rewards_claimed = 0;
        ctx.referral.bump = ctx.referral_bump;
    }
    Ok(())
}

/// The record that a claim of referral rewards reads and writes.
pub struct ClaimReferralRewards {
    pub referral: Referral,
    /// The caller, who must be the referrer of the record.
    pub referrer: Address,
}

impl ClaimReferralRewards {
    /// Why a claim is refused, if it is: the first condition that fails, in this order.
    pub open spec fn refusal(&self) -> Option<LaunchpadError> {
        if self.referrer != self.referral.referrer {
            Some(LaunchpadError::InvalidAuthority)
        } else if self.referral.rewards_claimed > self.referral.rewards_earned {
            Some(LaunchpadError::ArithmeticUnderflow)
        } else if self.referral.rewards_claimed == self.referral.rewards_earned {
            Some(LaunchpadError::NoRewardsToClaim)
        } else {
            None
        }
    }
}

/// Marks all rewards of a referral as claimed and returns the amount that was
/// outstanding. No currency moves. A refused claim changes nothing.
pub fn claim_referral_rewards(ctx: &mut ClaimReferralRewards) -> (r: Result<u64, LaunchpadError>)
    ensures
        match r {
            Ok(unclaimed) => {
                &&& old(ctx).refusal() is None
                &&& unclaimed == old(ctx).referral.rewards_earned - old(
                    ctx,
                ).referral.rewards_claimed
                &&& unclaimed > 0
                &&& *final(ctx) == (ClaimReferralRewards {
                    referral: Referral {
                        rewards_claimed: old(ctx).referral.rewards_earned,
                        ..old(ctx).referral
                    },
                    ..*old(ctx)
                })
            },
            Err(e) => {
                &&& old(ctx).refusal() == Some(e)
                &&& *final(ctx) == *old(ctx)
            },
        },
        r is Ok ==> final(ctx).referral.wf(),
        old(ctx).referral.wf() ==> final(ctx).referral.wf(),
{
    if ctx.referrer != ctx.referral.referrer {
        return Err(LaunchpadError::InvalidAuthority);
    }
    let unclaimed: u64 = match ctx.referral.rewards_earned.checked_sub(
        ctx.referral.rewards_claimed,
    ) {
        Some(left) => left,
        None => {
            return Err(LaunchpadError::ArithmeticUnderflow);
        },
    };
    if unclaimed == 0 {
        return Err(LaunchpadError::NoRewardsToClaim);
    }
    ctx.referral.rewards_claimed = ctx.referral.rewards_earned;
    Ok(unclaimed)
}

} // verus!
