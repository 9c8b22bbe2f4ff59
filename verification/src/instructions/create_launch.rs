use vstd::prelude::*;
use crate::address::Address;
use crate::errors::LaunchpadError;
use crate::state::{
    byte_len, spec_in_sale_band, CurveType, Launch, LaunchStatus, MigrateType,
    MAX_SELL_PERCENT, MIN_FUND_RAISING, MIN_SELL_PERCENT,
};

verus! {

/// The record that creation fills, and what it takes from its surroundings.
pub struct CreateLaunch {
    /// The launch record to fill.
    pub launch: Launch,
    pub creator: Address,
    pub mint: Address,
    /// Bump of the launch record.
    pub launch_bump: u8,
    /// Current time, in seconds since the Unix epoch.
    pub now: i64,
}

/// Why a configuration is refused, if it is: the first condition that fails, in this
/// order. The sale allocation must be at least 51% and at most 80% of the supply; the
/// comparison is exact, so that half of the supply, or 51 of 101, is refused.
pub open spec fn spec_config_refusal(
    name: Seq<char>,
    symbol: Seq<char>,
    uri: Seq<char>,
    supply: u64,
    total_sell_amount: u64,
    total_fund_raising: u64,
) -> Option<LaunchpadError> {
    if byte_len(name) > Launch::MAX_NAME_LEN {
        Some(LaunchpadError::NameTooLong)
    } else if byte_len(symbol) > Launch::MAX_SYMBOL_LEN {
        Some(LaunchpadError::SymbolTooLong)
    } else if byte_len(uri) > Launch::MAX_URI_LEN {
        Some(LaunchpadError::URITooLong)
    } else if supply == 0 {
        Some(LaunchpadError::InvalidSupply)
    } else if !spec_in_sale_band(supply as nat, total_sell_amount as nat) {
        Some(LaunchpadError::InvalidSellAmount)
    } else if total_fund_raising < MIN_FUND_RAISING {
        Some(LaunchpadError::InvalidFundRaisingTarget)
    } else {
        None
    }
}

/// Number of bytes of a string.
fn utf8_len(s: &String) -> (n: usize)
    ensures
        n == byte_len(s@),
{
    s.as_str().as_bytes().len()
}

/// Creates a launch: checks the configuration and fills the record with it, with nothing
/// sold, nothing raised, status active and the current time as launch time.
///
/// A refused creation changes nothing. After an accepted one the caller mints
/// `supply` tokens into the launch reserve.
pub fn create_launch(
    ctx: &mut CreateLaunch,
    name: String,
    symbol: String,
    uri: String,
    supply: u64,
    total_sell_amount: u64,
    total_fund_raising: u64,
    curve_type: CurveType,
    migrate_type: MigrateType,
    cliff_period: i64,
    unlock_period: i64,
) -> (r: Result<(), LaunchpadError>)
    ensures
        match r {
            Ok(_) => {
                &&& spec_config_refusal(
                    name@,
                    symbol@,
                    uri@,
                    supply,
                    total_sell_amount,
                    total_fund_raising,
                ) is None
                &&& *final(ctx) == (CreateLaunch {
                    launch: Launch {
                        creator: old(ctx).creator,
                        mint: old(ctx).mint,
                        name: name,
                        symbol: symbol,
                        uri: uri,
                        total_supply: supply,
                        total_sell_amount: total_sell_amount,
                        total_fund_raising: total_fund_raising,
                        tokens_sold: 0,
                        sol_raised: 0,
                        curve_type: curve_type,
                        migrate_type: migrate_type,
                        status: LaunchStatus::Active,
                        creator_fee_earned: 0,
                        cliff_period: cliff_period,
                        unlock_period: unlock_period,
                        launch_time: old(ctx).now,
                        migrate_time: 0,
                        pool_address: final(ctx).launch.pool_address,
                        bump: old(ctx).launch_bump,
                    },
                    ..*old(ctx)
                })
                &&& final(ctx).launch.pool_address.is_default()
                &&& final(ctx).launch.wf()
                &&& 0 < total_sell_amount <= supply
            },
            Err(e) => {
                &&& spec_config_refusal(
                    name@,
                    symbol@,
                    uri@,
                    supply,
                    total_sell_amount,
                    total_fund_raising,
                ) == Some(e)
                &&& *final(ctx) == *old(ctx)
            },
        },
{
    if utf8_len(&name) > Launch::MAX_NAME_LEN {
        return Err(LaunchpadError::NameTooLong);
    }
    if utf8_len(&symbol) > Launch::MAX_SYMBOL_LEN {
        return Err(LaunchpadError::SymbolTooLong);
    }
    if utf8_len(&uri) > Launch::MAX_URI_LEN {
        return Err(LaunchpadError::URITooLong);
    }
    if supply == 0 {
        return Err(LaunchpadError::InvalidSupply);
    }
    let offered: u128 = (total_sell_amount as u128) * 100;
    let min_sell: u128 = (supply as u128) * (MIN_SELL_PERCENT as u128);
    let max_sell: u128 = (supply as u128) * (MAX_SELL_PERCENT as u128);
    if !(offered >= min_sell && offered <= max_sell) {
        return Err(LaunchpadError::InvalidSellAmount);
    }
    if total_fund_raising < MIN_FUND_RAISING {
        return Err(LaunchpadError::InvalidFundRaisingTarget);
    }
    ctx.launch.creator = ctx.creator;
    ctx.launch.mint = ctx.mint;
    ctx.launch.name = name;
    ctx.launch.symbol = symbol;
    ctx.launch.uri = uri;
    ctx.launch.total_supply = supply;
    ctx.launch.total_sell_amount = total_sell_amount;
    ctx.launch.total_fund_raising = total_fund_raising;
    ctx.launch.tokens_sold = 0;
    ctx.launch.sol_raised = 0;
    ctx.launch.curve_type = curve_type;
    ctx.launch.migrate_type = migrate_type;
    ctx.launch.status = LaunchStatus::Active;
    ctx.launch.creator_fee_earned = 0;
    ctx.launch.cliff_period = cliff_period;
    ctx.launch.unlock_period = unlock_period;
    ctx.launch.launch_time = ctx.now;
    ctx.launch.migrate_time = 0;
    ctx.launch.pool_address = Address::default();
    ctx.launch.bump = ctx.launch_bump;
    Ok(())
}

} // verus!
