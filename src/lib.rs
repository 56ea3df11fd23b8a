//! Verified orchestration layer of a concentrated-liquidity position manager.
//!
//! The library holds the manager record, the authorization rules, the decoding
//! of the engine's position record and the planning of every engine call. The
//! host program performs the calls the plans describe and hands their outcome
//! back to the record.
pub mod codec;
pub mod error;
pub mod key;
pub mod manager;
pub mod rebalance;

pub use codec::{
    decode_position_liquidity, read_u128_le, DISCRIMINATOR_LEN, LIQUIDITY_FIELD_POS,
    LIQUIDITY_OFFSET, LIQUIDITY_WIDTH, POSITION_RECORD_MIN_LEN,
};
pub use error::LiquidityManagerError;
pub use key::{Key, KEY_LEN};
pub use manager::{
    initialize, require_authority, require_executor, store_new_position, Initialize,
    LiquidityManager, StoreNewPosition,
};
pub use rebalance::{
    add_liquidity, check_own_accounts, check_swap_accounts, fund_vaults, max_with_headroom, remove_liquidity, swap,
    AddLiquidity, DecreaseLiquidity, FundVaults, IncreaseLiquidity, RaydiumPoolState,
    RemoveLiquidity, Swap, SwapSingle, TokenTransfer, VaultFunding, DEPOSIT_HEADROOM_PERCENT,
    PERCENT_BASE,
};
