use vstd::prelude::*;

verus! {

/// The named conditions under which an operation of the launchpad is refused.
#[derive(Clone, Copy, Debug, PartialEq, Eq, Structural)]
pub enum LaunchpadError {
    /// The protocol fee is above the cap.
    InvalidFeePercentage,
    /// The total supply is zero.
    InvalidSupply,
    /// The sale allocation is outside 51% to 80% of the supply.
    InvalidSellAmount,
    /// The funding target is below the minimum.
    InvalidFundRaisingTarget,
    /// The launch is no longer trading.
    LaunchNotActive,
    /// The launch has already left the curve.
    AlreadyMigrated,
    /// The funding target has not been raised yet.
    GoalNotReached,
    /// The curve has fewer tokens left than the trade asks for.
    InsufficientTokens,
    /// The reserve holds less currency than the trade pays out.
    InsufficientSOL,
    /// The quote is worse than the caller's floor.
    SlippageExceeded,
    /// The traded amount is zero.
    AmountTooSmall,
    /// The traded amount is too large.
    AmountTooLarge,
    /// A counter would exceed its width.
    ArithmeticOverflow,
    /// A counter would drop below zero.
    ArithmeticUnderflow,
    /// The caller is not the identity stored in the record.
    InvalidAuthority,
    /// The name is longer than the record can hold.
    NameTooLong,
    /// The symbol is longer than the record can hold.
    SymbolTooLong,
    /// The metadata URI is longer than the record can hold.
    URITooLong,
    /// No creator fee has accrued.
    NoFeesToClaim,
    /// No referral reward is outstanding.
    NoRewardsToClaim,
    /// The vesting period is still running.
    VestingNotEnded,
}

impl LaunchpadError {
    /// The text that describes this condition to a person.
    pub open spec fn spec_message(&self) -> Seq<char> {
        match self {
            LaunchpadError::InvalidFeePercentage => "Invalid fee percentage"@,
            LaunchpadError::InvalidSupply => "Invalid supply amount"@,
            LaunchpadError::InvalidSellAmount => "Invalid sell amount - must be between 51% and 80% of supply"@,
            LaunchpadError::InvalidFundRaisingTarget => "Invalid fund raising target"@,
            LaunchpadError::LaunchNotActive => "Launch is not active"@,
            LaunchpadError::AlreadyMigrated => "Launch already migrated"@,
            LaunchpadError::GoalNotReached => "Bonding curve goal not reached yet"@,
            LaunchpadError::InsufficientTokens => "Insufficient tokens in bonding curve"@,
            LaunchpadError::InsufficientSOL => "Insufficient SOL in bonding curve"@,
            LaunchpadError::SlippageExceeded => "Slippage tolerance exceeded"@,
            LaunchpadError::AmountTooSmall => "Amount too small"@,
            LaunchpadError::AmountTooLarge => "Amount too large"@,
            LaunchpadError::ArithmeticOverflow => "Arithmetic overflow"@,
            LaunchpadError::ArithmeticUnderflow => "Arithmetic underflow"@,
            LaunchpadError::InvalidAuthority => "Invalid authority"@,
            LaunchpadError::NameTooLong => "Name too long"@,
            LaunchpadError::SymbolTooLong => "Symbol too long"@,
            LaunchpadError::URITooLong => "URI too long"@,
            LaunchpadError::NoFeesToClaim => "No fees to claim"@,
            LaunchpadError::NoRewardsToClaim => "No rewards to claim"@,
            LaunchpadError::VestingNotEnded => "Vesting period not ended"@,
        }
    }

    /// The text that describes this condition to a person.
    pub fn message(&self) -> (r: &'static str)
        ensures
            r@ == self.spec_message(),
    {
        match self {
            LaunchpadError::InvalidFeePercentage => "Invalid fee percentage",
            LaunchpadError::InvalidSupply => "Invalid supply amount",
            LaunchpadError::InvalidSellAmount => "Invalid sell amount - must be between 51% and 80% of supply",
            LaunchpadError::InvalidFundRaisingTarget => "Invalid fund raising target",
            LaunchpadError::LaunchNotActive => "Launch is not active",
            LaunchpadError::AlreadyMigrated => "Launch already migrated",
            LaunchpadError::GoalNotReached => "Bonding curve goal not reached yet",
            LaunchpadError::InsufficientTokens => "Insufficient tokens in bonding curve",
            LaunchpadError::InsufficientSOL => "Insufficient SOL in bonding curve",
            LaunchpadError::SlippageExceeded => "Slippage tolerance exceeded",
            LaunchpadError::AmountTooSmall => "Amount too small",
            LaunchpadError::AmountTooLarge => "Amount too large",
            LaunchpadError::ArithmeticOverflow => "Arithmetic overflow",
            LaunchpadError::ArithmeticUnderflow => "Arithmetic underflow",
            LaunchpadError::InvalidAuthority => "Invalid authority",
            LaunchpadError::NameTooLong => "Name too long",
            LaunchpadError::SymbolTooLong => "Symbol too long",
            LaunchpadError::URITooLong => "URI too long",
            LaunchpadError::NoFeesToClaim => "No fees to claim",
            LaunchpadError::NoRewardsToClaim => "No rewards to claim",
            LaunchpadError::VestingNotEnded => "Vesting period not ended",
        }
    }
}

} // verus!
