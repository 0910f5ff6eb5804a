use vstd::prelude::*;
use vstd::bytes::{spec_u64_from_le_bytes, u64_from_le_bytes};
use vstd::slice::slice_subrange;
use vstd::arithmetic::div_mod::{lemma_div_by_multiple, lemma_fundamental_div_mod};
use crate::errors::ContractError;
use crate::state::PRICE_PRECISION;

verus! {

/// The raw 64-bit price packed into slot `j` of a wide word, read
/// little-endian.
pub open spec fn packed_slot(word: Seq<u8>, j: int) -> u64
    recommends
        0 <= j,
        8 * j + 8 <= word.len(),
{
    spec_u64_from_le_bytes(word.subrange(8 * j, 8 * j + 8))
}

/// A raw price carried to the global thirty-decimal scale:
/// `raw * PRICE_PRECISION / precision`, truncating.
pub open spec fn rescaled(raw: int, precision: int) -> int
    recommends
        precision > 0,
{
    raw * (PRICE_PRECISION as int) / precision
}

/// Extract the raw price of slot `j` from a packed word.
pub fn packed_price(word: &[u8], j: usize) -> (r: u64)
    requires
        8 * j + 8 <= word@.len(),
    ensures
        r == packed_slot(word@, j as int),
{
    let _len: usize = word.len();
    let chunk = slice_subrange(word, 8 * j, 8 * j + 8);
    u64_from_le_bytes(chunk)
}

/// Rescale a raw slot price by the token's precision onto the global
/// scale. Fails exactly when the precision is zero or the widening
/// multiplication leaves `u128`.
pub fn scale_to_global(raw: u64, precision: u128) -> (r: Result<u128, ContractError>)
    ensures
        r is Ok <==> precision > 0 && raw * PRICE_PRECISION <= u128::MAX,
        r is Ok ==> r->Ok_0 == rescaled(raw as int, precision as int),
        r is Err ==> r == Err::<u128, ContractError>(ContractError::Computation),
{
    if precision == 0 {
        return Err(ContractError::Computation);
    }
    match (raw as u128).checked_mul(PRICE_PRECISION) {
        Some(product) => Ok(product / precision),
        None => Err(ContractError::Computation),
    }
}

/// Rescaling a raw price up to the global scale and back down by the
/// same precision returns the raw price, whenever the precision evenly
/// divides the global scale.
pub proof fn lemma_rescale_round_trip(raw: int, precision: int)
    requires
        0 <= raw,
        0 < precision,
        (PRICE_PRECISION as int) % precision == 0,
    ensures
        rescaled(raw, precision) * precision / (PRICE_PRECISION as int) == raw,
{
    let s = PRICE_PRECISION as int;
    let q = s / precision;
    lemma_fundamental_div_mod(s, precision);
    assert(s == precision * q);
    assert(q >= 1) by (nonlinear_arith)
        requires
            s == precision * q,
            s > 0,
            precision > 0,
    ;
    assert(raw * q >= 0) by (nonlinear_arith)
        requires
            raw >= 0,
            q >= 1,
    ;
    assert(raw * s == (raw * q) * precision) by (nonlinear_arith)
        requires
            s == precision * q,
    ;
    lemma_div_by_multiple(raw * q, precision);
    assert(rescaled(raw, precision) == raw * q);
    lemma_div_by_multiple(raw, s);
    assert((raw * q) * precision == raw * s) by (nonlinear_arith)
        requires
            s == precision * q,
    ;
    assert(rescaled(raw, precision) * precision / s == raw);
}

} // verus!
