use vstd::prelude::*;

use crate::error::LiquidityManagerError;

verus! {

/// Length of the type discriminator that prefixes every engine record.
pub const DISCRIMINATOR_LEN: usize = 8;

/// Position of the liquidity field in the position record, after the discriminator.
pub const LIQUIDITY_FIELD_POS: usize = 73;

/// Absolute byte position of the liquidity field in the raw position record.
pub const LIQUIDITY_OFFSET: usize = DISCRIMINATOR_LEN + LIQUIDITY_FIELD_POS;

/// Width in bytes of the liquidity field.
pub const LIQUIDITY_WIDTH: usize = 16;

/// Shortest raw position record that holds the whole liquidity field.
pub const POSITION_RECORD_MIN_LEN: usize = LIQUIDITY_OFFSET + LIQUIDITY_WIDTH;

/// The unsigned number that `bytes` encode, least significant byte first.
pub open spec fn le_value(bytes: Seq<u8>) -> nat
    decreases bytes.len(),
{
    if bytes.len() == 0 {
        0
    } else {
        bytes[0] as nat + 256 * le_value(bytes.drop_first())
    }
}

/// The liquidity magnitude that a raw position record holds.
pub open spec fn liquidity_field(data: Seq<u8>) -> nat {
    le_value(data.subrange(LIQUIDITY_OFFSET as int, POSITION_RECORD_MIN_LEN as int))
}

/// What decoding the raw position record `data` gives.
pub open spec fn decoded_liquidity(data: Seq<u8>) -> Result<u128, LiquidityManagerError> {
    if data.len() < POSITION_RECORD_MIN_LEN {
        Err(LiquidityManagerError::InvalidAccountData)
    } else {
        Ok(liquidity_field(data) as u128)
    }
}

/// `256` to the power `n`.
pub open spec fn byte_place(n: nat) -> nat
    decreases n,
{
    if n == 0 {
        1
    } else {
        256 * byte_place((n - 1) as nat)
    }
}

proof fn lemma_byte_place_monotone(m: nat, n: nat)
    requires
        m <= n,
    ensures
        byte_place(m) <= byte_place(n),
    decreases n,
{
    if m < n {
        lemma_byte_place_monotone(m, (n - 1) as nat);
    }
}

proof fn lemma_byte_place_width()
    ensures
        byte_place(LIQUIDITY_WIDTH as nat) == u128::MAX + 1,
{
    reveal_with_fuel(byte_place, 17);
}

proof fn lemma_le_value_bound(bytes: Seq<u8>)
    ensures
        le_value(bytes) < byte_place(bytes.len()),
    decreases bytes.len(),
{
    if bytes.len() > 0 {
        lemma_le_value_bound(bytes.drop_first());
    }
}

/// The liquidity field of a record long enough to hold it always fits a `u128`.
pub proof fn lemma_liquidity_field_fits(data: Seq<u8>)
    requires
        data.len() >= POSITION_RECORD_MIN_LEN,
    ensures
        liquidity_field(data) <= u128::MAX,
{
    let field = data.subrange(LIQUIDITY_OFFSET as int, POSITION_RECORD_MIN_LEN as int);
    lemma_le_value_bound(field);
    lemma_byte_place_width();
}

/// Reads the 16-byte little-endian unsigned integer that starts at `offset`.
pub fn read_u128_le(data: &[u8], offset: usize) -> (r: u128)
    requires
        offset + LIQUIDITY_WIDTH <= data@.len(),
    ensures
        r == le_value(data@.subrange(offset as int, offset + LIQUIDITY_WIDTH)),
{
    let mut acc: u128 = 0;
    let len: usize = data.len();
    assert(data@.len() == len);
    let mut i: usize = LIQUIDITY_WIDTH;
    while i > 0
        invariant
            i <= LIQUIDITY_WIDTH,
            offset + LIQUIDITY_WIDTH <= data@.len(),
            data@.len() <= usize::MAX,
            acc == le_value(data@.subrange(offset + i, offset + LIQUIDITY_WIDTH)),
            acc < byte_place((LIQUIDITY_WIDTH - i) as nat),
        decreases i,
    {
        i = i - 1;
        let b: u8 = data[offset + i];
        proof {
            let whole = data@.subrange(offset + i, offset + LIQUIDITY_WIDTH);
            assert(whole.drop_first() =~= data@.subrange(offset + i + 1, offset + LIQUIDITY_WIDTH));
            assert(whole[0] == b);
            let k = (LIQUIDITY_WIDTH - i - 1) as nat;
            assert(byte_place(k + 1) == 256 * byte_place(k));
            lemma_byte_place_monotone(k + 1, LIQUIDITY_WIDTH as nat);
            lemma_byte_place_width();
            assert(b + 256 * acc < byte_place(k + 1));
        }
        acc = b as u128 + 256 * acc;
    }
    acc
}

/// Decodes the deployed liquidity magnitude from the engine's raw position record.
pub fn decode_position_liquidity(data: &[u8]) -> (r: Result<u128, LiquidityManagerError>)
    ensures
        r == decoded_liquidity(data@),
        r is Err <==> data@.len() < POSITION_RECORD_MIN_LEN,
        r is Err ==> r == Err::<u128, LiquidityManagerError>(LiquidityManagerError::InvalidAccountData),
        r matches Ok(v) ==> v == liquidity_field(data@),
{
    if data.len() < POSITION_RECORD_MIN_LEN {
        return Err(LiquidityManagerError::InvalidAccountData);
    }
    proof {
        lemma_liquidity_field_fits(data@);
    }
    Ok(read_u128_le(data, LIQUIDITY_OFFSET))
}

} // verus!
