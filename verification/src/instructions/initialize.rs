use vstd::prelude::*;
use crate::address::Address;
use crate::errors::LaunchpadError;
use crate::state::{LaunchpadConfig, DEFAULT_REFERRAL_FEE_BPS, MAX_FEE_BPS};

verus! {

/// The record that initialization fills, and what it takes from its surroundings.
pub struct Initialize {
    /// The configuration record to fill.
    pub config: LaunchpadConfig,
    /// The caller, who becomes the authority of the launchpad.
    pub authority: Address,
    /// Receiver of the community half of each fee.
    pub community_pool: Address,
    /// Bump of the configuration record.
    pub config_bump: u8,
}

/// Sets the global configuration: the caller as authority, the given fee, the community
/// pool and the standard referral fee. A fee above 10% is refused, and nothing changes.
pub fn initialize(ctx: &mut Initialize, fee_percentage: u16) -> (r: Result<(), LaunchpadError>)
    ensures
        match r {
            Ok(_) => {
                &&& fee_percentage <= MAX_FEE_BPS
                &&& final(ctx).config.wf()
                &&& *final(ctx) == (Initialize {
                    config: LaunchpadConfig {
                        authority: old(ctx).authority,
                        fee_percentage: fee_percentage,
                        community_pool: old(ctx).community_pool,
                        referral_fee: DEFAULT_REFERRAL_FEE_BPS,
                        bump: old(ctx).config_bump,
                    },
                    ..*old(ctx)
                })
            },
            Err(e) => {
                &&& fee_percentage > MAX_FEE_BPS
                &&& e == LaunchpadError::InvalidFeePercentage
                &&& *final(ctx) == *old(ctx)
            },
        },
{
    if fee_percentage > MAX_FEE_BPS {
        return Err(LaunchpadError::InvalidFeePercentage);
    }
    ctx.config.authority = ctx.authority;
    ctx.config.fee_percentage = fee_percentage;
    ctx.config.community_pool = ctx.community_pool;
    ctx.config.referral_fee = DEFAULT_REFERRAL_FEE_BPS;
    ctx.config.bump = ctx.config_bump;
    Ok(())
}

} // verus!
