use vstd::prelude::*;

use crate::error::LiquidityManagerError;
use crate::key::Key;

verus! {

/// The persistent record of one managed position.
#[derive(Clone, Copy, Debug, PartialEq, Eq)]
pub struct LiquidityManager {
    /// Principal: the only identity allowed to perform administrative changes.
    pub authority: Key,
    /// The only identity allowed to run rebalance operations.
    pub executor: Key,
    /// The engine pool this manager targets.
    pub pool: Key,
    pub token_mint_a: Key,
    pub token_mint_b: Key,
    /// Custodial account of the manager for `token_mint_a`.
    pub token_vault_a: Key,
    /// Custodial account of the manager for `token_mint_b`.
    pub token_vault_b: Key,
    pub lower_tick: i32,
    pub upper_tick: i32,
    /// Last observed deployed liquidity: set by a successful withdraw, read by the next deposit.
    pub current_liquidity: u128,
    /// Mint of the token that represents the engine position; all zero until registered.
    pub position_nft_mint: Key,
}

/// The accounts that creating a manager record refers to.
#[derive(Clone, Copy, Debug)]
pub struct Initialize {
    /// The signer creating the record; it becomes the record's authority.
    pub authority: Key,
    pub pool: Key,
    pub token_mint_a: Key,
    pub token_mint_b: Key,
    pub token_vault_a: Key,
    pub token_vault_b: Key,
}

/// The accounts that registering a new position refers to.
#[derive(Clone, Copy, Debug)]
pub struct StoreNewPosition {
    /// The signer of the registration.
    pub authority: Key,
}

/// Whether `m` is the record that `initialize` creates from these arguments.
pub open spec fn is_initialized(
    m: LiquidityManager,
    ctx: Initialize,
    lower_tick: i32,
    upper_tick: i32,
    executor: Key,
) -> bool {
    &&& m.authority == ctx.authority
    &&& m.executor == executor
    &&& m.pool == ctx.pool
    &&& m.token_mint_a == ctx.token_mint_a
    &&& m.token_mint_b == ctx.token_mint_b
    &&& m.token_vault_a == ctx.token_vault_a
    &&& m.token_vault_b == ctx.token_vault_b
    &&& m.lower_tick == lower_tick
    &&& m.upper_tick == upper_tick
    &&& m.current_liquidity == 0
    &&& m.position_nft_mint.is_unset()
}

impl LiquidityManager {
    /// Whether the record is valid: its range is ordered and its executor is
    /// not its principal.
    pub open spec fn wf(self) -> bool {
        &&& self.lower_tick < self.upper_tick
        &&& self.executor@ != self.authority@
    }

    /// The record re-pointed at the position `nft_mint` with the range `lower..upper`.
    pub open spec fn with_position(self, nft_mint: Key, lower: i32, upper: i32) -> LiquidityManager {
        LiquidityManager { position_nft_mint: nft_mint, lower_tick: lower, upper_tick: upper, ..self }
    }

    /// The record after a withdraw of `liquidity` went through.
    pub open spec fn with_liquidity(self, liquidity: u128) -> LiquidityManager {
        LiquidityManager { current_liquidity: liquidity, ..self }
    }
}

/// Whether `caller` may run the executor-gated operations of `m`.
pub open spec fn is_executor(m: LiquidityManager, caller: Key) -> bool {
    caller@ == m.executor@
}

/// Whether `caller` may run the administrative operations of `m`.
pub open spec fn is_authority(m: LiquidityManager, caller: Key) -> bool {
    caller@ == m.authority@
}

/// Refuses a caller of an executor-gated operation that is not the executor.
pub fn require_executor(manager: &LiquidityManager, caller: &Key) -> (r: Result<(), LiquidityManagerError>)
    ensures
        r is Ok <==> is_executor(*manager, *caller),
        r is Err ==> r == Err::<(), LiquidityManagerError>(LiquidityManagerError::InvalidExecutor),
{
    if caller.same_as(&manager.executor) {
        Ok(())
    } else {
        Err(LiquidityManagerError::InvalidExecutor)
    }
}

/// Refuses a caller of an administrative operation that is not the authority.
pub fn require_authority(manager: &LiquidityManager, caller: &Key) -> (r: Result<(), LiquidityManagerError>)
    ensures
        r is Ok <==> is_authority(*manager, *caller),
        r is Err ==> r == Err::<(), LiquidityManagerError>(LiquidityManagerError::InvalidAuthority),
{
    if caller.same_as(&manager.authority) {
        Ok(())
    } else {
        Err(LiquidityManagerError::InvalidAuthority)
    }
}

/// Creates the record of a new manager: the signer becomes its authority, the
/// liquidity starts at zero and no position is registered. An executor equal to
/// the signer is refused, and so is a range whose lower bound is not below its
/// upper bound.
pub fn initialize(ctx: &Initialize, lower_tick: i32, upper_tick: i32, executor: Key) -> (r: Result<
    LiquidityManager,
    LiquidityManagerError,
>)
    ensures
        r is Ok <==> executor@ != ctx.authority@ && lower_tick < upper_tick,
        executor@ == ctx.authority@ ==> r == Err::<LiquidityManager, LiquidityManagerError>(
            LiquidityManagerError::InvalidExecutor,
        ),
        executor@ != ctx.authority@ && lower_tick >= upper_tick ==> r == Err::<
            LiquidityManager,
            LiquidityManagerError,
        >(LiquidityManagerError::InvalidTickRange),
        r matches Ok(m) ==> is_initialized(m, *ctx, lower_tick, upper_tick, executor) && m.wf(),
{
    if executor.same_as(&ctx.authority) {
        return Err(LiquidityManagerError::InvalidExecutor);
    }
    if lower_tick >= upper_tick {
        return Err(LiquidityManagerError::InvalidTickRange);
    }
    Ok(LiquidityManager {
        authority: ctx.authority,
        executor,
        pool: ctx.pool,
        token_mint_a: ctx.token_mint_a,
        token_mint_b: ctx.token_mint_b,
        token_vault_a: ctx.token_vault_a,
        token_vault_b: ctx.token_vault_b,
        lower_tick,
        upper_tick,
        current_liquidity: 0,
        position_nft_mint: Key::unset(),
    })
}

/// Re-points the record at a position minted elsewhere, overwriting the
/// registered position and both bounds. Only the authority may do so, and only
/// with a lower bound below the upper bound.
pub fn store_new_position(
    manager: &mut LiquidityManager,
    ctx: &StoreNewPosition,
    nft_mint: Key,
    lower: i32,
    upper: i32,
) -> (r: Result<(), LiquidityManagerError>)
    ensures
        r is Ok <==> is_authority(*old(manager), ctx.authority) && lower < upper,
        r is Ok ==> *final(manager) == old(manager).with_position(nft_mint, lower, upper),
        !is_authority(*old(manager), ctx.authority) ==> r == Err::<(), LiquidityManagerError>(
            LiquidityManagerError::InvalidAuthority,
        ),
        is_authority(*old(manager), ctx.authority) && lower >= upper ==> r == Err::<
            (),
            LiquidityManagerError,
        >(LiquidityManagerError::InvalidTickRange),
        r is Err ==> *final(manager) == *old(manager),
        old(manager).wf() ==> final(manager).wf(),
{
    require_authority(manager, &ctx.authority)?;
    if lower >= upper {
        return Err(LiquidityManagerError::InvalidTickRange);
    }
    manager.position_nft_mint = nft_mint;
    manager.lower_tick = lower;
    manager.upper_tick = upper;
    Ok(())
}

/// Registering a position twice leaves only the second registration: the
/// record takes the second call's position and bounds, whatever the first set.
pub proof fn lemma_store_position_overwrites(
    m: LiquidityManager,
    first_mint: Key,
    first_lower: i32,
    first_upper: i32,
    second_mint: Key,
    second_lower: i32,
    second_upper: i32,
)
    ensures
        m.with_position(first_mint, first_lower, first_upper).with_position(
            second_mint,
            second_lower,
            second_upper,
        ) == m.with_position(second_mint, second_lower, second_upper),
        is_authority(m.with_position(first_mint, first_lower, first_upper), m.authority),
{
}

} // verus!
