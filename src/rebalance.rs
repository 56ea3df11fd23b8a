use vstd::prelude::*;

use crate::codec::{
    decode_position_liquidity, decoded_liquidity, lemma_liquidity_field_fits, le_value, liquidity_field,
    LIQUIDITY_OFFSET, POSITION_RECORD_MIN_LEN,
};
use crate::error::LiquidityManagerError;
use crate::key::Key;
use crate::manager::{is_executor, require_executor, LiquidityManager};

verus! {

/// Share of a vault's balance, in percent, that a deposit may consume at most.
pub const DEPOSIT_HEADROOM_PERCENT: u64 = 110;

/// Denominator of the percentages above.
pub const PERCENT_BASE: u64 = 100;

/// The accounts that a withdraw refers to.
#[derive(Clone, Copy, Debug)]
pub struct RemoveLiquidity {
    /// The signer of the operation.
    pub executor: Key,
    pub pool_state: Key,
    /// Receives the withdrawn amount of the first asset.
    pub token_account_0: Key,
    /// Receives the withdrawn amount of the second asset.
    pub token_account_1: Key,
    pub vault_0_mint: Key,
    pub vault_1_mint: Key,
}

/// The accounts that a swap refers to.
#[derive(Clone, Copy, Debug)]
pub struct Swap {
    /// The signer of the operation.
    pub payer: Key,
    pub pool_state: Key,
    pub input_token_account: Key,
    pub output_token_account: Key,
    pub input_vault_mint: Key,
    pub output_vault_mint: Key,
}

/// The accounts that a deposit refers to.
#[derive(Clone, Copy, Debug)]
pub struct AddLiquidity {
    /// The signer of the operation.
    pub executor: Key,
    pub pool_state: Key,
    /// Supplies the first asset.
    pub token_account_0: Key,
    /// Supplies the second asset.
    pub token_account_1: Key,
    pub vault_0_mint: Key,
    pub vault_1_mint: Key,
}

/// The accounts that funding the vaults refers to.
#[derive(Clone, Copy, Debug)]
pub struct FundVaults {
    /// The signer that owns both source accounts.
    pub payer: Key,
    pub vault_a: Key,
    pub vault_b: Key,
    pub payer_token_a: Key,
    pub payer_token_b: Key,
    pub mint_a: Key,
    pub mint_b: Key,
}

/// A state of the engine's pool, as far as a range check reads it.
#[derive(Clone, Copy, Debug)]
pub struct RaydiumPoolState {
    pub status: u8,
    pub nonce: u8,
    pub current_tick: i32,
}

/// The engine's withdraw call: remove `liquidity`, accepting at least the two minima.
#[derive(Clone, Copy, Debug, PartialEq, Eq, Structural)]
pub struct DecreaseLiquidity {
    pub liquidity: u128,
    pub amount_0_min: u64,
    pub amount_1_min: u64,
}

/// The engine's single-pool swap call.
#[derive(Clone, Copy, Debug, PartialEq, Eq, Structural)]
pub struct SwapSingle {
    pub amount: u64,
    pub other_amount_threshold: u64,
    pub sqrt_price_limit_x64: u128,
    pub is_base_input: bool,
}

/// The engine's deposit call: add `liquidity`, spending at most the two maxima.
#[derive(Clone, Copy, Debug, PartialEq, Eq, Structural)]
pub struct IncreaseLiquidity {
    pub liquidity: u128,
    pub amount_0_max: u64,
    pub amount_1_max: u64,
    pub base_flag: Option<bool>,
}

/// One transfer of `amount` tokens from `from` to `to`, signed by `authority`.
#[derive(Clone, Copy, Debug, PartialEq, Eq)]
pub struct TokenTransfer {
    pub from: Key,
    pub to: Key,
    pub authority: Key,
    pub amount: u64,
}

/// The two transfers that fund the vaults, performed together or not at all.
#[derive(Clone, Copy, Debug, PartialEq, Eq)]
pub struct VaultFunding {
    pub transfer_a: TokenTransfer,
    pub transfer_b: TokenTransfer,
}

/// Whether the pool, the two token accounts and the two mints handed to an
/// operation are the record's own pool, vaults and mints.
pub open spec fn names_own_accounts(
    m: LiquidityManager,
    pool: Key,
    account_0: Key,
    account_1: Key,
    mint_0: Key,
    mint_1: Key,
) -> bool {
    &&& pool@ == m.pool@
    &&& account_0@ == m.token_vault_a@
    &&& account_1@ == m.token_vault_b@
    &&& mint_0@ == m.token_mint_a@
    &&& mint_1@ == m.token_mint_b@
}

/// Checks the accounts of an operation against the record.
pub fn check_own_accounts(
    manager: &LiquidityManager,
    pool: &Key,
    account_0: &Key,
    account_1: &Key,
    mint_0: &Key,
    mint_1: &Key,
) -> (r: Result<(), LiquidityManagerError>)
    ensures
        r is Ok <==> names_own_accounts(*manager, *pool, *account_0, *account_1, *mint_0, *mint_1),
        r is Err ==> r == Err::<(), LiquidityManagerError>(LiquidityManagerError::AccountMismatch),
{
    if pool.same_as(&manager.pool) && account_0.same_as(&manager.token_vault_a)
        && account_1.same_as(&manager.token_vault_b) && mint_0.same_as(&manager.token_mint_a)
        && mint_1.same_as(&manager.token_mint_b) {
        Ok(())
    } else {
        Err(LiquidityManagerError::AccountMismatch)
    }
}

/// What a withdraw asks of the engine, or why it is refused.
pub open spec fn withdraw_plan(m: LiquidityManager, ctx: RemoveLiquidity, position_data: Seq<u8>) -> Result<
    DecreaseLiquidity,
    LiquidityManagerError,
> {
    if !is_executor(m, ctx.executor) {
        Err(LiquidityManagerError::InvalidExecutor)
    } else if !names_own_accounts(
        m,
        ctx.pool_state,
        ctx.token_account_0,
        ctx.token_account_1,
        ctx.vault_0_mint,
        ctx.vault_1_mint,
    ) {
        Err(LiquidityManagerError::AccountMismatch)
    } else {
        match decoded_liquidity(position_data) {
            Ok(liquidity) => Ok(DecreaseLiquidity { liquidity, amount_0_min: 0, amount_1_min: 0 }),
            Err(e) => Err(e),
        }
    }
}

/// Plans a withdraw of the whole deployed liquidity: decodes it from the engine's
/// raw position record `position_data` and asks the engine to remove all of it,
/// with no floor on what comes back. Nothing is changed here; the caller performs
/// the call and hands its outcome to `LiquidityManager::complete_remove_liquidity`.
pub fn remove_liquidity(manager: &LiquidityManager, ctx: &RemoveLiquidity, position_data: &[u8]) -> (r:
    Result<DecreaseLiquidity, LiquidityManagerError>)
    ensures
        r == withdraw_plan(*manager, *ctx, position_data@),
        !is_executor(*manager, ctx.executor) ==> r == Err::<DecreaseLiquidity, LiquidityManagerError>(
            LiquidityManagerError::InvalidExecutor,
        ),
{
    require_executor(manager, &ctx.executor)?;
    check_own_accounts(
        manager,
        &ctx.pool_state,
        &ctx.token_account_0,
        &ctx.token_account_1,
        &ctx.vault_0_mint,
        &ctx.vault_1_mint,
    )?;
    let liquidity = decode_position_liquidity(position_data)?;
    Ok(DecreaseLiquidity { liquidity, amount_0_min: 0, amount_1_min: 0 })
}

/// For the executor, with the record's own accounts, a withdraw of a position
/// record shorter than the liquidity field's end is refused with
/// `InvalidAccountData`, and a withdraw of a longer one removes exactly the
/// little-endian number in the field's sixteen bytes, with zero floors.
pub proof fn lemma_withdraw_decodes_record(m: LiquidityManager, ctx: RemoveLiquidity, position_data: Seq<u8>)
    requires
        is_executor(m, ctx.executor),
        names_own_accounts(
            m,
            ctx.pool_state,
            ctx.token_account_0,
            ctx.token_account_1,
            ctx.vault_0_mint,
            ctx.vault_1_mint,
        ),
    ensures
        position_data.len() < POSITION_RECORD_MIN_LEN ==> withdraw_plan(m, ctx, position_data) == Err::<
            DecreaseLiquidity,
            LiquidityManagerError,
        >(LiquidityManagerError::InvalidAccountData),
        position_data.len() >= POSITION_RECORD_MIN_LEN ==> {
            &&& withdraw_plan(m, ctx, position_data) is Ok
            &&& withdraw_plan(m, ctx, position_data)->Ok_0.liquidity == le_value(
                position_data.subrange(LIQUIDITY_OFFSET as int, POSITION_RECORD_MIN_LEN as int),
            )
            &&& withdraw_plan(m, ctx, position_data)->Ok_0.amount_0_min == 0
            &&& withdraw_plan(m, ctx, position_data)->Ok_0.amount_1_min == 0
        },
{
    if position_data.len() >= POSITION_RECORD_MIN_LEN {
        lemma_liquidity_field_fits(position_data);
    }
}

impl LiquidityManager {
    /// Takes in the outcome of the engine's withdraw call `call`. On success the
    /// record keeps the withdrawn magnitude; on failure it is left as it was and the
    /// engine's error is handed back unchanged.
    pub fn complete_remove_liquidity<E>(&mut self, call: &DecreaseLiquidity, outcome: Result<(), E>) -> (r:
        Result<(), E>)
        ensures
            r == outcome,
            outcome is Ok ==> *final(self) == old(self).with_liquidity(call.liquidity),
            outcome is Err ==> *final(self) == *old(self),
            old(self).wf() ==> final(self).wf(),
    {
        if outcome.is_ok() {
            self.current_liquidity = call.liquidity;
        }
        outcome
    }
}

/// Whether the swap's token accounts and mints are the record's vaults and
/// mints, in one orientation or the other.
pub open spec fn swaps_between_own_vaults(m: LiquidityManager, ctx: Swap) -> bool {
    ||| {
        &&& ctx.input_token_account@ == m.token_vault_a@
        &&& ctx.output_token_account@ == m.token_vault_b@
        &&& ctx.input_vault_mint@ == m.token_mint_a@
        &&& ctx.output_vault_mint@ == m.token_mint_b@
    }
    ||| {
        &&& ctx.input_token_account@ == m.token_vault_b@
        &&& ctx.output_token_account@ == m.token_vault_a@
        &&& ctx.input_vault_mint@ == m.token_mint_b@
        &&& ctx.output_vault_mint@ == m.token_mint_a@
    }
}

/// Checks the pool, token accounts and mints of a swap against the record.
pub fn check_swap_accounts(manager: &LiquidityManager, ctx: &Swap) -> (r: Result<(), LiquidityManagerError>)
    ensures
        r is Ok <==> ctx.pool_state@ == manager.pool@ && swaps_between_own_vaults(*manager, *ctx),
        r is Err ==> r == Err::<(), LiquidityManagerError>(LiquidityManagerError::AccountMismatch),
{
    let forward = ctx.input_token_account.same_as(&manager.token_vault_a)
        && ctx.output_token_account.same_as(&manager.token_vault_b)
        && ctx.input_vault_mint.same_as(&manager.token_mint_a)
        && ctx.output_vault_mint.same_as(&manager.token_mint_b);
    let backward = ctx.input_token_account.same_as(&manager.token_vault_b)
        && ctx.output_token_account.same_as(&manager.token_vault_a)
        && ctx.input_vault_mint.same_as(&manager.token_mint_b)
        && ctx.output_vault_mint.same_as(&manager.token_mint_a);
    if ctx.pool_state.same_as(&manager.pool) && (forward || backward) {
        Ok(())
    } else {
        Err(LiquidityManagerError::AccountMismatch)
    }
}

/// What a swap asks of the engine, or why it is refused.
pub open spec fn swap_plan(m: LiquidityManager, ctx: Swap, amount_in: u64) -> Result<SwapSingle, LiquidityManagerError> {
    if !is_executor(m, ctx.payer) {
        Err(LiquidityManagerError::InvalidExecutor)
    } else if !(ctx.pool_state@ == m.pool@ && swaps_between_own_vaults(m, ctx)) {
        Err(LiquidityManagerError::AccountMismatch)
    } else {
        Ok(
            SwapSingle {
                amount: amount_in,
                other_amount_threshold: 0,
                sqrt_price_limit_x64: 0,
                is_base_input: true,
            },
        )
    }
}

/// Plans a swap of exactly `amount_in` of the input asset, with no floor on the
/// output and no price limit. The record is not changed by a swap.
pub fn swap(manager: &LiquidityManager, ctx: &Swap, amount_in: u64) -> (r: Result<SwapSingle, LiquidityManagerError>)
    ensures
        r == swap_plan(*manager, *ctx, amount_in),
        !is_executor(*manager, ctx.payer) ==> r == Err::<SwapSingle, LiquidityManagerError>(
            LiquidityManagerError::InvalidExecutor,
        ),
{
    require_executor(manager, &ctx.payer)?;
    check_swap_accounts(manager, ctx)?;
    Ok(SwapSingle { amount: amount_in, other_amount_threshold: 0, sqrt_price_limit_x64: 0, is_base_input: true })
}

/// The headroom share of `balance`, rounded down: `floor(balance * 110 / 100)`.
pub open spec fn headroom_share(balance: u64) -> int {
    (balance * DEPOSIT_HEADROOM_PERCENT) / (PERCENT_BASE as int)
}

/// The most a deposit may take from a vault holding `balance`: its headroom
/// share, or nothing when that share does not fit a `u64`.
pub open spec fn deposit_maximum(balance: u64) -> Option<u64> {
    if headroom_share(balance) <= u64::MAX {
        Some(headroom_share(balance) as u64)
    } else {
        None
    }
}

/// Computes `deposit_maximum(balance)`; the product is formed in 128 bits, so
/// only a share that itself exceeds a `u64` is refused.
pub fn max_with_headroom(balance: u64) -> (r: Option<u64>)
    ensures
        r == deposit_maximum(balance),
{
    assert(balance * DEPOSIT_HEADROOM_PERCENT <= u128::MAX) by (nonlinear_arith)
        requires
            balance <= u64::MAX,
    ;
    let scaled: u128 = balance as u128 * DEPOSIT_HEADROOM_PERCENT as u128;
    let share: u128 = scaled / PERCENT_BASE as u128;
    if share <= u64::MAX as u128 {
        Some(share as u64)
    } else {
        None
    }
}

/// What a deposit asks of the engine, or why it is refused.
pub open spec fn deposit_plan(m: LiquidityManager, ctx: AddLiquidity, balance_0: u64, balance_1: u64) -> Result<
    IncreaseLiquidity,
    LiquidityManagerError,
> {
    if !is_executor(m, ctx.executor) {
        Err(LiquidityManagerError::InvalidExecutor)
    } else if !names_own_accounts(
        m,
        ctx.pool_state,
        ctx.token_account_0,
        ctx.token_account_1,
        ctx.vault_0_mint,
        ctx.vault_1_mint,
    ) {
        Err(LiquidityManagerError::AccountMismatch)
    } else if deposit_maximum(balance_0) is None || deposit_maximum(balance_1) is None {
        Err(LiquidityManagerError::CalculationOverflow)
    } else {
        Ok(
            IncreaseLiquidity {
                liquidity: m.current_liquidity,
                amount_0_max: deposit_maximum(balance_0)->0,
                amount_1_max: deposit_maximum(balance_1)->0,
                base_flag: Some(true),
            },
        )
    }
}

/// Plans the redeployment of the last withdrawn liquidity, allowing the engine
/// to take up to the headroom share of each vault's balance (`balance_0` and
/// `balance_1`, read from the two vaults). The record is not changed by a deposit.
pub fn add_liquidity(manager: &LiquidityManager, ctx: &AddLiquidity, balance_0: u64, balance_1: u64) -> (r:
    Result<IncreaseLiquidity, LiquidityManagerError>)
    ensures
        r == deposit_plan(*manager, *ctx, balance_0, balance_1),
        !is_executor(*manager, ctx.executor) ==> r == Err::<IncreaseLiquidity, LiquidityManagerError>(
            LiquidityManagerError::InvalidExecutor,
        ),
{
    require_executor(manager, &ctx.executor)?;
    check_own_accounts(
        manager,
        &ctx.pool_state,
        &ctx.token_account_0,
        &ctx.token_account_1,
        &ctx.vault_0_mint,
        &ctx.vault_1_mint,
    )?;
    let amount_0_max = match max_with_headroom(balance_0) {
        Some(v) => v,
        None => return Err(LiquidityManagerError::CalculationOverflow),
    };
    let amount_1_max = match max_with_headroom(balance_1) {
        Some(v) => v,
        None => return Err(LiquidityManagerError::CalculationOverflow),
    };
    Ok(
        IncreaseLiquidity {
            liquidity: manager.current_liquidity,
            amount_0_max,
            amount_1_max,
            base_flag: Some(true),
        },
    )
}

/// A successful withdraw followed by a deposit redeploys exactly what was
/// withdrawn: the deposit's target is the magnitude decoded from the position
/// record, with no drift, and each maximum is the vault's balance times the
/// headroom percentage divided by one hundred, rounded down. Whether the deposit
/// is accepted depends only on its own caller, accounts and balances.
pub proof fn lemma_withdraw_then_deposit(
    m: LiquidityManager,
    withdraw_ctx: RemoveLiquidity,
    position_data: Seq<u8>,
    deposit_ctx: AddLiquidity,
    balance_0: u64,
    balance_1: u64,
)
    requires
        withdraw_plan(m, withdraw_ctx, position_data) is Ok,
    ensures
        withdraw_plan(m, withdraw_ctx, position_data)->Ok_0.liquidity == liquidity_field(position_data),
        deposit_plan(
            m.with_liquidity(withdraw_plan(m, withdraw_ctx, position_data)->Ok_0.liquidity),
            deposit_ctx,
            balance_0,
            balance_1,
        ) is Ok <==> {
            &&& is_executor(m, deposit_ctx.executor)
            &&& names_own_accounts(
                m,
                deposit_ctx.pool_state,
                deposit_ctx.token_account_0,
                deposit_ctx.token_account_1,
                deposit_ctx.vault_0_mint,
                deposit_ctx.vault_1_mint,
            )
            &&& headroom_share(balance_0) <= u64::MAX
            &&& headroom_share(balance_1) <= u64::MAX
        },
        deposit_plan(
            m.with_liquidity(withdraw_plan(m, withdraw_ctx, position_data)->Ok_0.liquidity),
            deposit_ctx,
            balance_0,
            balance_1,
        ) matches Ok(call) ==> {
            &&& call.liquidity == liquidity_field(position_data)
            &&& call.amount_0_max == headroom_share(balance_0)
            &&& call.amount_1_max == headroom_share(balance_1)
        },
{
    lemma_liquidity_field_fits(position_data);
}

/// Whether the vaults and mints that a funding names are the record's own.
pub open spec fn funds_own_vaults(m: LiquidityManager, ctx: FundVaults) -> bool {
    &&& ctx.vault_a@ == m.token_vault_a@
    &&& ctx.vault_b@ == m.token_vault_b@
    &&& ctx.mint_a@ == m.token_mint_a@
    &&& ctx.mint_b@ == m.token_mint_b@
}

/// Whether `t` moves exactly `amount` from `from` to `to` under `authority`.
pub open spec fn is_transfer(t: TokenTransfer, from: Key, to: Key, authority: Key, amount: u64) -> bool {
    &&& t.from == from
    &&& t.to == to
    &&& t.authority == authority
    &&& t.amount == amount
}

/// Plans the funding of both vaults from the payer's own accounts: one transfer
/// of exactly `amount_a` into the first vault and one of exactly `amount_b` into
/// the second. A zero amount is a transfer of nothing, not an error.
pub fn fund_vaults(manager: &LiquidityManager, ctx: &FundVaults, amount_a: u64, amount_b: u64) -> (r: Result<
    VaultFunding,
    LiquidityManagerError,
>)
    ensures
        r is Ok <==> funds_own_vaults(*manager, *ctx),
        r is Err ==> r->Err_0 == LiquidityManagerError::AccountMismatch,
        r matches Ok(plan) ==> is_transfer(plan.transfer_a, ctx.payer_token_a, ctx.vault_a, ctx.payer, amount_a)
            && is_transfer(plan.transfer_b, ctx.payer_token_b, ctx.vault_b, ctx.payer, amount_b),
{
    if !(ctx.vault_a.same_as(&manager.token_vault_a) && ctx.vault_b.same_as(&manager.token_vault_b)
        && ctx.mint_a.same_as(&manager.token_mint_a) && ctx.mint_b.same_as(&manager.token_mint_b)) {
        return Err(LiquidityManagerError::AccountMismatch);
    }
    Ok(
        VaultFunding {
            transfer_a: TokenTransfer {
                from: ctx.payer_token_a,
                to: ctx.vault_a,
                authority: ctx.payer,
                amount: amount_a,
            },
            transfer_b: TokenTransfer {
                from: ctx.payer_token_b,
                to: ctx.vault_b,
                authority: ctx.payer,
                amount: amount_b,
            },
        },
    )
}

} // verus!
