use vstd::prelude::*;
use crate::address::Address;
use crate::errors::LaunchpadError;
use crate::state::{Launch, LaunchStatus};

verus! {

/// Currency that stays behind in the launch record at migration, for its rent.
pub const RENT_RESERVE: u64 = 5000;

/// The record and balances that a migration reads and writes.
pub struct MigrateToPool {
    pub launch: Launch,
    /// Tokens still held by the launch reserve.
    pub launch_token_amount: u64,
    /// Currency held by the launch record.
    pub launch_lamports: u64,
    /// Address of the pool that takes over.
    pub pool: Address,
    /// Current time, in seconds since the Unix epoch.
    pub now: i64,
}

/// The amounts that a migration would hand to the pool. Nothing is moved: the launch
/// is only marked as migrated.
#[derive(Clone, Copy, Debug)]
pub struct MigrationPlan {
    /// All tokens left in the launch reserve.
    pub tokens: u64,
    /// The currency of the reserve, less what stays behind for rent.
    pub sol_to_migrate: u64,
}

/// Currency that leaves a reserve of `balance` at migration: all but the rent reserve,
/// and nothing where the balance is below it.
pub open spec fn spec_sol_to_migrate(balance: u64) -> u64 {
    if balance >= RENT_RESERVE {
        (balance - RENT_RESERVE) as u64
    } else {
        0
    }
}

impl MigrateToPool {
    /// Why a migration is refused, if it is. A launch that is not active has left the
    /// curve for good; an active one must have raised its target.
    pub open spec fn refusal(&self) -> Option<LaunchpadError> {
        if self.launch.status != LaunchStatus::Active {
            Some(LaunchpadError::AlreadyMigrated)
        } else if self.launch.sol_raised < self.launch.total_fund_raising {
            Some(LaunchpadError::GoalNotReached)
        } else {
            None
        }
    }
}

/// Moves an active launch that has raised its target off the curve: the status becomes
/// migrated, and the time and the pool are recorded. A refused migration changes nothing.
pub fn migrate_to_pool(ctx: &mut MigrateToPool) -> (r: Result<MigrationPlan, LaunchpadError>)
    ensures
        match r {
            Ok(plan) => {
                &&& old(ctx).refusal() is None
                &&& plan.tokens == old(ctx).launch_token_amount
                &&& plan.sol_to_migrate == spec_sol_to_migrate(old(ctx).launch_lamports)
                &&& *final(ctx) == (MigrateToPool {
                    launch: Launch {
                        status: LaunchStatus::Migrated,
                        migrate_time: old(ctx).now,
                        pool_address: old(ctx).pool,
                        ..old(ctx).launch
                    },
                    ..*old(ctx)
                })
            },
            Err(e) => {
                &&& old(ctx).refusal() == Some(e)
                &&& *final(ctx) == *old(ctx)
            },
        },
        r is Ok ==> old(ctx).launch.status == LaunchStatus::Active && final(ctx).launch.status
            == LaunchStatus::Migrated,
        old(ctx).launch.status != LaunchStatus::Active ==> r == Err::<
            MigrationPlan,
            LaunchpadError,
        >(LaunchpadError::AlreadyMigrated),
        final(ctx).launch.same_config(&old(ctx).launch),
        old(ctx).launch.wf() ==> final(ctx).launch.wf(),
{
    if ctx.launch.status != LaunchStatus::Active {
        return Err(LaunchpadError::AlreadyMigrated);
    }
    if ctx.launch.sol_raised < ctx.launch.total_fund_raising {
        return Err(LaunchpadError::GoalNotReached);
    }
    let remaining_tokens: u64 = ctx.launch_token_amount;
    let sol_to_migrate: u64 = ctx.launch_lamports.saturating_sub(RENT_RESERVE);

    ctx.launch.status = LaunchStatus::Migrated;
    ctx.launch.migrate_time = ctx.now;
    ctx.launch.pool_address = ctx.pool;

    Ok(MigrationPlan { tokens: remaining_tokens, sol_to_migrate })
}

} // verus!
