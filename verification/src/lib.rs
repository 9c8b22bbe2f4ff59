//! Pricing, settlement and lifecycle rules of a bonding-curve token launchpad.
//!
//! A launch sells a fixed allocation of a new token from a reserve, at a spot price that
//! is a function of how much is sold already, until a funding target is raised; then it
//! moves off the curve. The library decides: it quotes, checks and updates the records,
//! and tells its caller which transfers to carry out.

pub mod address;
pub mod curve;
pub mod errors;
pub mod history;
pub mod instructions;
pub mod state;
pub mod utils;

pub use instructions::{
    add_referral, buy_tokens, claim_creator_fees, claim_referral_rewards, create_launch,
    initialize, migrate_to_pool, sell_tokens,
};
