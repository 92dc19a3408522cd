use vstd::prelude::*;

verus! {

/// Decimals of the native token.
pub const SUBSTRATE_DECIMALS: u8 = 12;

/// Native units in one token.
pub const SUBSTRATE_UNIT: u128 = 1_000_000_000_000;

pub const ONE_TOKEN: u128 = SUBSTRATE_UNIT;

/// Default minimum stake: one token.
pub const MIN_STAKE_DEFAULT: u128 = ONE_TOKEN;

/// Tokens to native units, saturating at `u128::MAX`.
pub fn tokens_to_native(tokens: u128) -> (r: u128)
    ensures
        r == if tokens * SUBSTRATE_UNIT > u128::MAX { u128::MAX as int } else { tokens * SUBSTRATE_UNIT },
{
    if tokens > u128::MAX / SUBSTRATE_UNIT {
        u128::MAX
    } else {
        tokens * SUBSTRATE_UNIT
    }
}

/// Native units to whole tokens, rounding down.
pub fn native_to_tokens(native: u128) -> (r: u128)
    ensures
        r == native / SUBSTRATE_UNIT,
{
    native / SUBSTRATE_UNIT
}

} // verus!
