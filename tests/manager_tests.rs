use liquidity_manager::{
    add_liquidity, decode_position_liquidity, fund_vaults, initialize, max_with_headroom,
    read_u128_le, remove_liquidity, store_new_position, swap, AddLiquidity, DecreaseLiquidity,
    FundVaults, IncreaseLiquidity, Initialize, Key, LiquidityManager, LiquidityManagerError,
    RemoveLiquidity, StoreNewPosition, Swap, SwapSingle, LIQUIDITY_OFFSET,
    POSITION_RECORD_MIN_LEN,
};

fn key(n: u8) -> Key {
    let mut bytes = [0u8; 32];
    bytes[0] = n;
    bytes[31] = n.wrapping_mul(7);
    Key::new(bytes)
}

const AUTHORITY: u8 = 1;
const EXECUTOR: u8 = 2;
const POOL: u8 = 3;
const MINT_A: u8 = 4;
const MINT_B: u8 = 5;
const VAULT_A: u8 = 6;
const VAULT_B: u8 = 7;
const STRANGER: u8 = 99;

fn new_manager() -> LiquidityManager {
    let ctx = Initialize {
        authority: key(AUTHORITY),
        pool: key(POOL),
        token_mint_a: key(MINT_A),
        token_mint_b: key(MINT_B),
        token_vault_a: key(VAULT_A),
        token_vault_b: key(VAULT_B),
    };
    initialize(&ctx, -100, 100, key(EXECUTOR)).unwrap()
}

fn remove_ctx(caller: u8) -> RemoveLiquidity {
    RemoveLiquidity {
        executor: key(caller),
        pool_state: key(POOL),
        token_account_0: key(VAULT_A),
        token_account_1: key(VAULT_B),
        vault_0_mint: key(MINT_A),
        vault_1_mint: key(MINT_B),
    }
}

fn add_ctx(caller: u8) -> AddLiquidity {
    AddLiquidity {
        executor: key(caller),
        pool_state: key(POOL),
        token_account_0: key(VAULT_A),
        token_account_1: key(VAULT_B),
        vault_0_mint: key(MINT_A),
        vault_1_mint: key(MINT_B),
    }
}

fn swap_ctx(caller: u8) -> Swap {
    Swap {
        payer: key(caller),
        pool_state: key(POOL),
        input_token_account: key(VAULT_A),
        output_token_account: key(VAULT_B),
        input_vault_mint: key(MINT_A),
        output_vault_mint: key(MINT_B),
    }
}

fn fund_ctx() -> FundVaults {
    FundVaults {
        payer: key(AUTHORITY),
        vault_a: key(VAULT_A),
        vault_b: key(VAULT_B),
        payer_token_a: key(40),
        payer_token_b: key(41),
        mint_a: key(MINT_A),
        mint_b: key(MINT_B),
    }
}

fn position_record(len: usize, liquidity: u128) -> Vec<u8> {
    let mut data = vec![0xAAu8; len];
    let bytes = liquidity.to_le_bytes();
    for i in 0..16 {
        if LIQUIDITY_OFFSET + i < len {
            data[LIQUIDITY_OFFSET + i] = bytes[i];
        }
    }
    data
}

#[test]
fn record_layout_constants() {
    assert_eq!(LIQUIDITY_OFFSET, 81);
    assert_eq!(POSITION_RECORD_MIN_LEN, 97);
}

#[test]
fn decode_fixture_one() {
    let mut data = vec![0u8; 97];
    data[81] = 0x01;
    assert_eq!(decode_position_liquidity(&data), Ok(1));
}

#[test]
fn decode_known_pattern() {
    let value: u128 = 0x0102_0304_0506_0708_090a_0b0c_0d0e_0f10;
    let data = position_record(97, value);
    assert_eq!(decode_position_liquidity(&data), Ok(value));
}

#[test]
fn decode_longer_record() {
    let data = position_record(300, 123_456_789);
    assert_eq!(decode_position_liquidity(&data), Ok(123_456_789));
}

#[test]
fn decode_largest_value() {
    let data = position_record(97, u128::MAX);
    assert_eq!(decode_position_liquidity(&data), Ok(u128::MAX));
}

#[test]
fn decode_short_record_fails() {
    for len in [0usize, 1, 8, 81, 96] {
        let data = position_record(len, 5);
        assert_eq!(
            decode_position_liquidity(&data),
            Err(LiquidityManagerError::InvalidAccountData)
        );
    }
}

#[test]
fn read_u128_at_offset() {
    let data: Vec<u8> = (0u8..20).collect();
    let expected = u128::from_le_bytes([2, 3, 4, 5, 6, 7, 8, 9, 10, 11, 12, 13, 14, 15, 16, 17]);
    assert_eq!(read_u128_le(&data, 2), expected);
}

#[test]
fn initialize_sets_fields() {
    let m = new_manager();
    assert_eq!(m.authority, key(AUTHORITY));
    assert_eq!(m.executor, key(EXECUTOR));
    assert_eq!(m.pool, key(POOL));
    assert_eq!(m.token_mint_a, key(MINT_A));
    assert_eq!(m.token_mint_b, key(MINT_B));
    assert_eq!(m.token_vault_a, key(VAULT_A));
    assert_eq!(m.token_vault_b, key(VAULT_B));
    assert_eq!(m.lower_tick, -100);
    assert_eq!(m.upper_tick, 100);
    assert_eq!(m.current_liquidity, 0);
    assert_eq!(m.position_nft_mint, Key::unset());
    assert_eq!(m.position_nft_mint.to_bytes(), [0u8; 32]);
}

#[test]
fn initialize_refuses_executor_equal_to_signer() {
    let ctx = Initialize {
        authority: key(AUTHORITY),
        pool: key(POOL),
        token_mint_a: key(MINT_A),
        token_mint_b: key(MINT_B),
        token_vault_a: key(VAULT_A),
        token_vault_b: key(VAULT_B),
    };
    assert_eq!(
        initialize(&ctx, -100, 100, key(AUTHORITY)),
        Err(LiquidityManagerError::InvalidExecutor)
    );
}

#[test]
fn initialize_refuses_unordered_range() {
    let ctx = Initialize {
        authority: key(AUTHORITY),
        pool: key(POOL),
        token_mint_a: key(MINT_A),
        token_mint_b: key(MINT_B),
        token_vault_a: key(VAULT_A),
        token_vault_b: key(VAULT_B),
    };
    assert_eq!(
        initialize(&ctx, 5, 1, key(EXECUTOR)),
        Err(LiquidityManagerError::InvalidTickRange)
    );
    assert_eq!(
        initialize(&ctx, 7, 7, key(EXECUTOR)),
        Err(LiquidityManagerError::InvalidTickRange)
    );
    assert!(initialize(&ctx, 6, 7, key(EXECUTOR)).is_ok());
}

#[test]
fn store_position_with_unordered_range_is_refused() {
    let mut m = new_manager();
    let before = m;
    let ctx = StoreNewPosition { authority: key(AUTHORITY) };
    assert_eq!(
        store_new_position(&mut m, &ctx, key(50), 5, 1),
        Err(LiquidityManagerError::InvalidTickRange)
    );
    assert_eq!(m, before);
}

#[test]
fn key_equality() {
    assert!(key(3).same_as(&key(3)));
    assert!(!key(3).same_as(&key(4)));
    let mut bytes = [9u8; 32];
    let a = Key::new(bytes);
    bytes[31] = 8;
    assert_ne!(a, Key::new(bytes));
}

#[test]
fn non_executor_is_refused_everywhere() {
    let m = new_manager();
    let before = m;
    let data = position_record(97, 10);
    for caller in [AUTHORITY, STRANGER, POOL] {
        assert_eq!(
            remove_liquidity(&m, &remove_ctx(caller), &data),
            Err(LiquidityManagerError::InvalidExecutor)
        );
        assert_eq!(
            swap(&m, &swap_ctx(caller), 1000),
            Err(LiquidityManagerError::InvalidExecutor)
        );
        assert_eq!(
            add_liquidity(&m, &add_ctx(caller), 10, 10),
            Err(LiquidityManagerError::InvalidExecutor)
        );
    }
    assert_eq!(m, before);
}

#[test]
fn executor_check_precedes_decoding() {
    let m = new_manager();
    let short = vec![0u8; 3];
    assert_eq!(
        remove_liquidity(&m, &remove_ctx(STRANGER), &short),
        Err(LiquidityManagerError::InvalidExecutor)
    );
    assert_eq!(
        remove_liquidity(&m, &remove_ctx(EXECUTOR), &short),
        Err(LiquidityManagerError::InvalidAccountData)
    );
}

#[test]
fn withdraw_plan_removes_everything() {
    let m = new_manager();
    let data = position_record(120, 777_000);
    assert_eq!(
        remove_liquidity(&m, &remove_ctx(EXECUTOR), &data),
        Ok(DecreaseLiquidity { liquidity: 777_000, amount_0_min: 0, amount_1_min: 0 })
    );
}

#[test]
fn withdraw_then_deposit_round_trip() {
    let mut m = new_manager();
    let data = position_record(97, 5_000_000);
    let call = remove_liquidity(&m, &remove_ctx(EXECUTOR), &data).unwrap();
    assert_eq!(call.liquidity, 5_000_000);
    let done: Result<(), String> = m.complete_remove_liquidity(&call, Ok(()));
    assert_eq!(done, Ok(()));
    assert_eq!(m.current_liquidity, 5_000_000);
    let deposit = add_liquidity(&m, &add_ctx(EXECUTOR), 1_000_000, 333).unwrap();
    assert_eq!(
        deposit,
        IncreaseLiquidity {
            liquidity: 5_000_000,
            amount_0_max: 1_100_000,
            amount_1_max: 366,
            base_flag: Some(true),
        }
    );
}

#[test]
fn headroom_rounds_down() {
    assert_eq!(max_with_headroom(1_000_000), Some(1_100_000));
    assert_eq!(max_with_headroom(0), Some(0));
    assert_eq!(max_with_headroom(9), Some(9));
    assert_eq!(max_with_headroom(10), Some(11));
    assert_eq!(max_with_headroom(u64::MAX / 110), Some((u64::MAX / 110) * 110 / 100));
    let above_product = u64::MAX / 110 + 1;
    let expected = (above_product as u128 * 110 / 100) as u64;
    assert_eq!(max_with_headroom(above_product), Some(expected));
    assert_eq!(expected, 184_467_440_737_095_517);
    let largest: u64 = 16_769_767_339_735_956_014;
    assert_eq!(max_with_headroom(largest), Some(u64::MAX));
    assert_eq!(max_with_headroom(largest + 1), None);
    assert_eq!(max_with_headroom(u64::MAX), None);
}

#[test]
fn deposit_overflow_is_refused() {
    let m = new_manager();
    assert_eq!(
        add_liquidity(&m, &add_ctx(EXECUTOR), u64::MAX, 1),
        Err(LiquidityManagerError::CalculationOverflow)
    );
    let smallest_refused: u64 = 16_769_767_339_735_956_015;
    assert_eq!(
        add_liquidity(&m, &add_ctx(EXECUTOR), 1, smallest_refused),
        Err(LiquidityManagerError::CalculationOverflow)
    );
}

#[test]
fn deposit_share_fits_though_product_does_not() {
    let m = new_manager();
    let balance = u64::MAX / 100;
    let call = add_liquidity(&m, &add_ctx(EXECUTOR), balance, 100).unwrap();
    assert_eq!(call.amount_0_max, (balance as u128 * 110 / 100) as u64);
    assert_eq!(call.amount_1_max, 110);
}

#[test]
fn failed_withdraw_keeps_record() {
    let mut m = new_manager();
    m.current_liquidity = 42;
    let before = m;
    let data = position_record(97, 9_999);
    let call = remove_liquidity(&m, &remove_ctx(EXECUTOR), &data).unwrap();
    let outcome: Result<(), String> = Err("engine refused".to_string());
    let r = m.complete_remove_liquidity(&call, outcome);
    assert_eq!(r, Err("engine refused".to_string()));
    assert_eq!(m, before);
    assert_eq!(m.current_liquidity, 42);
}

#[test]
fn successful_withdraw_changes_only_liquidity() {
    let mut m = new_manager();
    let before = m;
    let call = DecreaseLiquidity { liquidity: 31, amount_0_min: 0, amount_1_min: 0 };
    let r: Result<(), u32> = m.complete_remove_liquidity(&call, Ok(()));
    assert_eq!(r, Ok(()));
    assert_eq!(m.current_liquidity, 31);
    m.current_liquidity = before.current_liquidity;
    assert_eq!(m, before);
}

#[test]
fn swap_plan_both_orientations() {
    let m = new_manager();
    let expected = Ok(SwapSingle {
        amount: 2_500,
        other_amount_threshold: 0,
        sqrt_price_limit_x64: 0,
        is_base_input: true,
    });
    assert_eq!(swap(&m, &swap_ctx(EXECUTOR), 2_500), expected);
    let mut reverse = swap_ctx(EXECUTOR);
    reverse.input_token_account = key(VAULT_B);
    reverse.output_token_account = key(VAULT_A);
    reverse.input_vault_mint = key(MINT_B);
    reverse.output_vault_mint = key(MINT_A);
    assert_eq!(swap(&m, &reverse, 2_500), expected);
}

#[test]
fn swap_with_foreign_accounts_is_refused() {
    let m = new_manager();
    let mut ctx = swap_ctx(EXECUTOR);
    ctx.pool_state = key(STRANGER);
    assert_eq!(swap(&m, &ctx, 1), Err(LiquidityManagerError::AccountMismatch));
    let mut mixed = swap_ctx(EXECUTOR);
    mixed.output_vault_mint = key(MINT_A);
    assert_eq!(swap(&m, &mixed, 1), Err(LiquidityManagerError::AccountMismatch));
}

#[test]
fn withdraw_and_deposit_with_foreign_accounts_are_refused() {
    let m = new_manager();
    let data = position_record(97, 10);
    let mut r = remove_ctx(EXECUTOR);
    r.token_account_1 = key(STRANGER);
    assert_eq!(
        remove_liquidity(&m, &r, &data),
        Err(LiquidityManagerError::AccountMismatch)
    );
    let mut a = add_ctx(EXECUTOR);
    a.vault_0_mint = key(MINT_B);
    assert_eq!(
        add_liquidity(&m, &a, 10, 10),
        Err(LiquidityManagerError::AccountMismatch)
    );
}

#[test]
fn fund_vaults_zero_amounts() {
    let m = new_manager();
    let plan = fund_vaults(&m, &fund_ctx(), 0, 0).unwrap();
    assert_eq!(plan.transfer_a.amount, 0);
    assert_eq!(plan.transfer_b.amount, 0);
    assert_eq!(plan.transfer_a.to, key(VAULT_A));
    assert_eq!(plan.transfer_b.to, key(VAULT_B));
}

#[test]
fn fund_vaults_moves_exact_amounts() {
    let m = new_manager();
    let plan = fund_vaults(&m, &fund_ctx(), 500, 7).unwrap();
    assert_eq!(plan.transfer_a.from, key(40));
    assert_eq!(plan.transfer_a.to, key(VAULT_A));
    assert_eq!(plan.transfer_a.authority, key(AUTHORITY));
    assert_eq!(plan.transfer_a.amount, 500);
    assert_eq!(plan.transfer_b.from, key(41));
    assert_eq!(plan.transfer_b.to, key(VAULT_B));
    assert_eq!(plan.transfer_b.amount, 7);
}

#[test]
fn fund_vaults_into_foreign_vault_is_refused() {
    let m = new_manager();
    let mut ctx = fund_ctx();
    ctx.vault_b = key(STRANGER);
    assert_eq!(
        fund_vaults(&m, &ctx, 1, 1),
        Err(LiquidityManagerError::AccountMismatch)
    );
}

#[test]
fn store_position_twice_keeps_second() {
    let mut m = new_manager();
    let ctx = StoreNewPosition { authority: key(AUTHORITY) };
    assert_eq!(store_new_position(&mut m, &ctx, key(50), -10, 10), Ok(()));
    assert_eq!(store_new_position(&mut m, &ctx, key(51), 200, 400), Ok(()));
    assert_eq!(m.position_nft_mint, key(51));
    assert_eq!(m.lower_tick, 200);
    assert_eq!(m.upper_tick, 400);
    assert_eq!(m.executor, key(EXECUTOR));
    assert_eq!(m.authority, key(AUTHORITY));
}

#[test]
fn store_position_by_non_authority_is_refused() {
    let mut m = new_manager();
    let before = m;
    let ctx = StoreNewPosition { authority: key(EXECUTOR) };
    assert_eq!(
        store_new_position(&mut m, &ctx, key(50), -10, 10),
        Err(LiquidityManagerError::InvalidAuthority)
    );
    assert_eq!(m, before);
}
