//! The operations of the launchpad, one module each.

pub mod buy_tokens;
pub mod create_launch;
pub mod fees;
pub mod initialize;
pub mod migrate;
pub mod referral;
pub mod sell_tokens;

pub use self::buy_tokens::{buy_tokens, BuyReceipt, BuyTokens};
pub use self::create_launch::{create_launch, CreateLaunch};
pub use self::fees::{claim_creator_fees, ClaimCreatorFees};
pub use self::initialize::{initialize, Initialize};
pub use self::migrate::{migrate_to_pool, MigrateToPool, MigrationPlan};
pub use self::referral::{add_referral, claim_referral_rewards, AddReferral, ClaimReferralRewards};
pub use self::sell_tokens::{sell_tokens, SellReceipt, SellTokens};
