use vstd::prelude::*;
use vstd::utf8::encode_utf8;
use crate::address::Address;
use crate::curve::{
    spec_base_price, spec_growth, spec_price, spec_progress, spec_sol_for_tokens,
    spec_tokens_for_sol, LOG_KNEE, PRICE_SCALE,
};
use crate::errors::LaunchpadError;

verus! {

/// Smallest funding target a launch may set: 30 units of 10^9 lamports.
pub const MIN_FUND_RAISING: u64 = 30_000_000_000;

/// Highest protocol fee, in basis points (10%).
pub const MAX_FEE_BPS: u16 = 1000;

/// Referral fee written at initialization, in basis points (0.1%).
pub const DEFAULT_REFERRAL_FEE_BPS: u16 = 10;

/// Number of bytes a string occupies in a record (its UTF-8 length).
pub open spec fn byte_len(s: Seq<char>) -> nat {
    encode_utf8(s).len()
}

/// Smallest share of the supply that a sale may offer, in percent.
pub const MIN_SELL_PERCENT: u64 = 51;

/// Largest share of the supply that a sale may offer, in percent.
pub const MAX_SELL_PERCENT: u64 = 80;

/// Whether a sale allocation lies in the band of 51% to 80% of the supply, both ends
/// included and neither rounded: 51 of 100 is in the band, 51 of 101 is below it.
pub open spec fn spec_in_sale_band(supply: nat, total_sell_amount: nat) -> bool {
    &&& total_sell_amount * 100 >= supply * 51
    &&& total_sell_amount * 100 <= supply * 80
}

/// Global configuration of the launchpad.
#[derive(Clone, Copy, Debug)]
pub struct LaunchpadConfig {
    pub authority: Address,
    /// Protocol fee on buys, in basis points (100 = 1%).
    pub fee_percentage: u16,
    /// Receiver of the community half of each fee.
    pub community_pool: Address,
    /// Referral fee in basis points (10 = 0.1%).
    pub referral_fee: u16,
    pub bump: u8,
}

impl LaunchpadConfig {
    /// Bytes a stored configuration record occupies: an 8-byte tag, then the fields.
    pub const LEN: usize = 8 + 32 + 2 + 32 + 2 + 1;

    /// The invariant of the configuration: a fee of at most 10%.
    pub open spec fn wf(&self) -> bool {
        self.fee_percentage <= MAX_FEE_BPS
    }
}

/// Shape of the price schedule.
#[derive(Clone, Copy, Debug, PartialEq, Eq, Structural)]
pub enum CurveType {
    Linear,
    Exponential,
    Logarithmic,
}

/// Kind of pool a launch moves to once its target is raised.
#[derive(Clone, Copy, Debug, PartialEq, Eq, Structural)]
pub enum MigrateType {
    /// Constant-product market maker.
    CPMM,
    /// Concentrated-liquidity market maker.
    CLMM,
}

/// Lifecycle state of a launch.
#[derive(Clone, Copy, Debug, PartialEq, Eq, Structural)]
pub enum LaunchStatus {
    Active,
    Migrated,
    Cancelled,
}

/// One token sale on a bonding curve.
#[derive(Debug)]
pub struct Launch {
    pub creator: Address,
    pub mint: Address,
    pub name: String,
    pub symbol: String,
    pub uri: String,
    pub total_supply: u64,
    /// Tokens offered on the curve.
    pub total_sell_amount: u64,
    /// Currency the sale aims to raise.
    pub total_fund_raising: u64,
    pub tokens_sold: u64,
    pub sol_raised: u64,
    pub curve_type: CurveType,
    pub migrate_type: MigrateType,
    pub status: LaunchStatus,
    /// Creator's share of the fees, accrued and not yet claimed.
    pub creator_fee_earned: u64,
    /// Vesting cliff in seconds.
    pub cliff_period: i64,
    /// Vesting unlock period in seconds.
    pub unlock_period: i64,
    pub launch_time: i64,
    pub migrate_time: i64,
    pub pool_address: Address,
    pub bump: u8,
}

impl Clone for Launch {
    fn clone(&self) -> (r: Launch)
        ensures
            r == *self,
    {
        Launch {
            creator: self.creator,
            mint: self.mint,
            name: self.name.clone(),
            symbol: self.symbol.clone(),
            uri: self.uri.clone(),
            total_supply: self.total_supply,
            total_sell_amount: self.total_sell_amount,
            total_fund_raising: self.total_fund_raising,
            tokens_sold: self.tokens_sold,
            sol_raised: self.sol_raised,
            curve_type: self.curve_type,
            migrate_type: self.migrate_type,
            status: self.status,
            creator_fee_earned: self.creator_fee_earned,
            cliff_period: self.cliff_period,
            unlock_period: self.unlock_period,
            launch_time: self.launch_time,
            migrate_time: self.migrate_time,
            pool_address: self.pool_address,
            bump: self.bump,
        }
    }
}

impl Launch {
    /// Longest name a launch record holds, in bytes.
    pub const MAX_NAME_LEN: usize = 32;

    /// Longest symbol a launch record holds, in bytes.
    pub const MAX_SYMBOL_LEN: usize = 10;

    /// Longest metadata URI a launch record holds, in bytes.
    pub const MAX_URI_LEN: usize = 200;

    /// Bytes a stored launch record occupies: an 8-byte tag, then the fields in order,
    /// each string with a 4-byte length in front of it.
    pub const LEN: usize = 8 + 32 + 32 + 4 + Self::MAX_NAME_LEN + 4 + Self::MAX_SYMBOL_LEN + 4
        + Self::MAX_URI_LEN + 8 + 8 + 8 + 8 + 8 + 1 + 1 + 1 + 8 + 8 + 8 + 8 + 8 + 32 + 1;

    /// The configuration that creation accepts: bounded strings, a positive supply, a sale
    /// allocation of at least 51% and at most 80% of the supply, and a funding target at
    /// or above the minimum.
    pub open spec fn valid_config(&self) -> bool {
        &&& byte_len(self.name@) <= Self::MAX_NAME_LEN
        &&& byte_len(self.symbol@) <= Self::MAX_SYMBOL_LEN
        &&& byte_len(self.uri@) <= Self::MAX_URI_LEN
        &&& self.total_supply > 0
        &&& spec_in_sale_band(self.total_supply as nat, self.total_sell_amount as nat)
        &&& self.total_fund_raising >= MIN_FUND_RAISING
    }

    /// The invariant of a launch record: a valid configuration, and no more tokens sold
    /// than the sale offers.
    pub open spec fn wf(&self) -> bool {
        &&& self.valid_config()
        &&& self.tokens_sold <= self.total_sell_amount
    }

    /// A valid configuration offers at least one token and at most the supply.
    pub proof fn lemma_valid_config_offers_tokens(&self)
        requires
            self.valid_config(),
        ensures
            0 < self.total_sell_amount <= self.total_supply,
    {
    }

    /// Whether two records carry the same identity and static configuration.
    pub open spec fn same_config(&self, other: &Launch) -> bool {
        &&& self.creator == other.creator
        &&& self.mint == other.mint
        &&& self.name == other.name
        &&& self.symbol == other.symbol
        &&& self.uri == other.uri
        &&& self.total_supply == other.total_supply
        &&& self.total_sell_amount == other.total_sell_amount
        &&& self.total_fund_raising == other.total_fund_raising
        &&& self.curve_type == other.curve_type
        &&& self.migrate_type == other.migrate_type
        &&& self.cliff_period == other.cliff_period
        &&& self.unlock_period == other.unlock_period
        &&& self.launch_time == other.launch_time
        &&& self.bump == other.bump
    }

    /// Spot price of this launch, scaled by 10^6, once `tokens_sold` tokens are sold.
    pub open spec fn price_at(&self, tokens_sold: nat) -> nat {
        spec_price(
            self.curve_type,
            self.total_fund_raising as nat,
            self.total_sell_amount as nat,
            tokens_sold,
        )
    }

    /// Spot price at the current sold count.
    pub open spec fn current_price(&self) -> nat {
        self.price_at(self.tokens_sold as nat)
    }

    /// Tokens that `sol_amount` buys at the current spot price.
    pub open spec fn tokens_for_sol(&self, sol_amount: nat) -> nat {
        spec_tokens_for_sol(self.current_price(), sol_amount)
    }

    /// Currency that `token_amount` tokens are worth at the current spot price.
    pub open spec fn sol_for_tokens(&self, token_amount: nat) -> nat {
        spec_sol_for_tokens(self.current_price(), token_amount)
    }

    /// Percentage of the sale that is sold, rounded down; zero when nothing is for sale.
    pub open spec fn progress_percent(&self) -> nat {
        if self.total_sell_amount == 0 {
            0
        } else {
            (self.tokens_sold as nat) * 100 / (self.total_sell_amount as nat)
        }
    }

    /// Progress of the sale in percent, from 0 to 100.
    pub fn get_progress(&self) -> (r: u64)
        requires
            self.tokens_sold <= self.total_sell_amount,
        ensures
            r == self.progress_percent(),
            r <= 100,
    {
        if self.total_sell_amount == 0 {
            return 0;
        }
        let sold: u128 = (self.tokens_sold as u128) * 100;
        let supply: u128 = self.total_sell_amount as u128;
        proof {
            vstd::arithmetic::div_mod::lemma_div_is_ordered(
                sold as int,
                (supply * 100) as int,
                supply as int,
            );
            vstd::arithmetic::div_mod::lemma_div_by_multiple(100, supply as int);
        }
        (sold / supply) as u64
    }

    /// Spot price, scaled by 10^6, once `tokens_sold` tokens are sold: the base price times
    /// the growth factor of the curve, and zero when nothing is for sale. All products are
    /// taken in 128 bits; the call fails, with an arithmetic overflow, exactly when the
    /// price itself does not fit in 64 bits.
    pub fn calculate_price(&self, tokens_sold: u64) -> (r: Result<u64, LaunchpadError>)
        ensures
            match r {
                Ok(p) => p == self.price_at(tokens_sold as nat),
                Err(e) => e == LaunchpadError::ArithmeticOverflow && self.price_at(
                    tokens_sold as nat,
                ) > u64::MAX,
            },
            self.total_sell_amount == 0 ==> r == Ok::<u64, LaunchpadError>(0),
    {
        if self.total_sell_amount == 0 {
            return Ok(0);
        }
        let scale: u128 = PRICE_SCALE as u128;
        let knee: u128 = LOG_KNEE as u128;
        let supply: u128 = self.total_sell_amount as u128;
        let progress: u128 = (tokens_sold as u128) * scale / supply;
        let base: u128 = (self.total_fund_raising as u128) * scale / supply;
        proof {
            assert(progress == spec_progress(tokens_sold as nat, self.total_sell_amount as nat));
            assert(base == spec_base_price(
                self.total_fund_raising as nat,
                self.total_sell_amount as nat,
            ));
            lemma_quotient_bounded((tokens_sold as u128 * scale) as int, supply as int);
            lemma_quotient_bounded((self.total_fund_raising as u128 * scale) as int, supply as int);
        }
        if base == 0 {
            proof {
                let g = spec_growth(self.curve_type, progress as nat);
                assert(0 * g == 0) by (nonlinear_arith);
            }
            return Ok(0);
        }
        let growth: u128 = match self.curve_type {
            CurveType::Linear => scale + progress,
            CurveType::Exponential => {
                let m: u128 = scale + progress;
                match m.checked_mul(m) {
                    Some(square) => square / scale,
                    None => {
                        proof {
                            lemma_huge_factor_overflows(
                                base as nat,
                                (m * m / 1_000_000) as nat,
                                (m * m) as nat,
                            );
                        }
                        return Err(LaunchpadError::ArithmeticOverflow);
                    },
                }
            },
            CurveType::Logarithmic => {
                if progress < knee {
                    scale + progress
                } else {
                    scale + knee + (progress - knee) / 2
                }
            },
        };
        assert(growth == spec_growth(self.curve_type, progress as nat));
        match base.checked_mul(growth) {
            Some(product) => {
                let price: u128 = product / scale;
                if price > u64::MAX as u128 {
                    Err(LaunchpadError::ArithmeticOverflow)
                } else {
                    Ok(price as u64)
                }
            },
            None => {
                proof {
                    lemma_huge_product_overflows((base * growth) as nat);
                }
                Err(LaunchpadError::ArithmeticOverflow)
            },
        }
    }

    /// Tokens received for `sol_amount` of currency, all priced at the current spot price;
    /// zero when the price is zero. Fails exactly when the price or the quote does not fit
    /// in 64 bits.
    pub fn calculate_tokens_for_sol(&self, sol_amount: u64) -> (r: Result<u64, LaunchpadError>)
        ensures
            match r {
                Ok(tokens) => self.current_price() <= u64::MAX && tokens == self.tokens_for_sol(
                    sol_amount as nat,
                ),
                Err(e) => e == LaunchpadError::ArithmeticOverflow && (self.current_price()
                    > u64::MAX || self.tokens_for_sol(sol_amount as nat) > u64::MAX),
            },
    {
        let current_price: u64 = match self.calculate_price(self.tokens_sold) {
            Ok(p) => p,
            Err(e) => {
                return Err(e);
            },
        };
        if current_price == 0 {
            return Ok(0);
        }
        let tokens: u128 = (sol_amount as u128) * (PRICE_SCALE as u128) / (current_price as u128);
        proof {
            lemma_quotient_bounded((sol_amount as u128 * 1_000_000) as int, current_price as int);
        }
        if tokens > u64::MAX as u128 {
            Err(LaunchpadError::ArithmeticOverflow)
        } else {
            Ok(tokens as u64)
        }
    }

    /// Currency paid out for `token_amount` tokens, all priced at the current spot price.
    /// Fails exactly when the price or the quote does not fit in 64 bits.
    pub fn calculate_sol_for_tokens(&self, token_amount: u64) -> (r: Result<u64, LaunchpadError>)
        ensures
            match r {
                Ok(sol) => self.current_price() <= u64::MAX && sol == self.sol_for_tokens(
                    token_amount as nat,
                ),
                Err(e) => e == LaunchpadError::ArithmeticOverflow && (self.current_price()
                    > u64::MAX || self.sol_for_tokens(token_amount as nat) > u64::MAX),
            },
    {
        let current_price: u64 = match self.calculate_price(self.tokens_sold) {
            Ok(p) => p,
            Err(e) => {
                return Err(e);
            },
        };
        assert((token_amount as u128) * (current_price as u128) <= u128::MAX) by (nonlinear_arith)
            requires
                token_amount <= u64::MAX,
                current_price <= u64::MAX,
        ;
        let sol: u128 = (token_amount as u128) * (current_price as u128) / (PRICE_SCALE as u128);
        if sol > u64::MAX as u128 {
            Err(LaunchpadError::ArithmeticOverflow)
        } else {
            Ok(sol as u64)
        }
    }
}

/// A quotient by a positive divisor is no larger than the dividend.
proof fn lemma_quotient_bounded(x: int, d: int)
    requires
        0 <= x,
        0 < d,
    ensures
        0 <= x / d <= x,
{
    vstd::arithmetic::div_mod::lemma_div_pos_is_pos(x, d);
    vstd::arithmetic::div_mod::lemma_div_is_ordered_by_denominator(x, 1, d);
}

/// A product that does not fit in 128 bits is still above 64 bits after the division
/// by the scale.
proof fn lemma_huge_product_overflows(product: nat)
    requires
        product > u128::MAX,
    ensures
        product / 1_000_000 > u64::MAX,
{
}

/// When the square behind the growth factor does not fit in 128 bits, the price does not
/// fit in 64 bits for any positive base price.
proof fn lemma_huge_factor_overflows(base: nat, growth: nat, square: nat)
    requires
        base >= 1,
        square > u128::MAX,
        growth == square / 1_000_000,
    ensures
        base * growth / 1_000_000 > u64::MAX,
{
    assert(growth >= 0x1_0000_0000_0000_0000_0000_0000);
    assert(base * growth >= growth) by (nonlinear_arith)
        requires
            base >= 1,
    ;
}

/// Volume and rewards attributed to one referrer in one launch. Registration leaves the
/// counters as they are and a claim marks rewards as claimed; no trade adds to them.
#[derive(Clone, Copy, Debug)]
pub struct Referral {
    pub referrer: Address,
    pub launch: Address,
    pub volume_generated: u64,
    pub rewards_earned: u64,
    pub rewards_claimed: u64,
    pub bump: u8,
}

impl Referral {
    /// Bytes a stored referral record occupies: an 8-byte tag, then the fields.
    pub const LEN: usize = 8 + 32 + 32 + 8 + 8 + 8 + 1;

    /// The invariant of a referral record: no more rewards claimed than earned.
    pub open spec fn wf(&self) -> bool {
        self.rewards_claimed <= self.rewards_earned
    }

    /// Whether the record was never used: it names no referrer and all its counters are
    /// zero.
    pub open spec fn unused(&self) -> bool {
        &&& self.referrer.is_default()
        &&& self.volume_generated == 0
        &&& self.rewards_earned == 0
        &&& self.rewards_claimed == 0
    }

    /// Whether the record was never used.
    pub fn is_unused(&self) -> (r: bool)
        ensures
            r == self.unused(),
    {
        let blank: Address = Address::default();
        let no_referrer: bool = self.referrer == blank;
        proof {
            if self.referrer.is_default() {
                Address::lemma_default_unique(self.referrer, blank);
            }
        }
        no_referrer && self.volume_generated == 0 && self.rewards_earned == 0
            && self.rewards_claimed == 0
    }
}

/// Running totals of one user's trades in one launch.
#[derive(Clone, Copy, Debug)]
pub struct UserPosition {
    pub user: Address,
    pub launch: Address,
    pub tokens_bought: u64,
    pub tokens_sold: u64,
    pub sol_spent: u64,
    pub sol_received: u64,
    pub bump: u8,
}

impl UserPosition {
    /// Bytes a stored position record occupies: an 8-byte tag, then the fields.
    pub const LEN: usize = 8 + 32 + 32 + 8 + 8 + 8 + 8 + 1;

    /// Whether this position follows `earlier` in time: none of its four counters is
    /// smaller.
    pub open spec fn grown_from(&self, earlier: &UserPosition) -> bool {
        &&& self.tokens_bought >= earlier.tokens_bought
        &&& self.tokens_sold >= earlier.tokens_sold
        &&& self.sol_spent >= earlier.sol_spent
        &&& self.sol_received >= earlier.sol_received
    }
}

} // verus!
