//! Where a ball is drawn: cell positions along the track in fixed-point,
//! 2.5 units apart, computed with the `fixed` crate's checked arithmetic.
use vstd::prelude::*;
use fixed::types::I32F32;
use crate::terrain::MovementDirection;

verus! {

/// The distance between two cells, 2.5, as the bits of an `I32F32`
/// (32 fractional bits).
pub const CELL_SPACING_BITS: i64 = 0x2_8000_0000;

/// The scale of an `I32F32`: its bits are the value times 2^32.
pub open spec fn fixed_one() -> int {
    0x1_0000_0000
}

/// `fixed::FixedI64::checked_mul` on the `I32F32`s whose bits are `a` and
/// `b`: the product, rounded down to a multiple of 2^-32, as bits; `None`
/// when the crate's widened product `a * b * 2^32` leaves the `i128` range.
#[verifier::external_body]
fn fixed_checked_mul(a: i64, b: i64) -> (product: Option<i64>)
    ensures
        -0x8000_0000_0000_0000_0000_0000_0000_0000 <= a * b * fixed_one() < 0x8000_0000_0000_0000_0000_0000_0000_0000
            ==> product == Some(((a * b) / fixed_one()) as i64),
        !(-0x8000_0000_0000_0000_0000_0000_0000_0000 <= a * b * fixed_one() < 0x8000_0000_0000_0000_0000_0000_0000_0000)
            ==> product is None,
{
    I32F32::from_bits(a).checked_mul(I32F32::from_bits(b)).map(|x| x.to_bits())
}

/// `fixed::FixedI64::checked_neg` on the `I32F32` whose bits are `a`: the
/// negation as bits, or `None` for the smallest value.
#[verifier::external_body]
fn fixed_checked_neg(a: i64) -> (negated: Option<i64>)
    ensures
        a != i64::MIN ==> negated == Some((-a) as i64),
        a == i64::MIN ==> negated is None,
{
    I32F32::from_bits(a).checked_neg().map(|x| x.to_bits())
}

/// The position of cell `cell_index` along the track, as `I32F32` bits: the
/// index times the spacing.
pub open spec fn cell_position_bits(cell_index: u16) -> int {
    cell_index * CELL_SPACING_BITS
}

/// Computes the position of cell `cell_index` along the track, as `I32F32`
/// bits; the product never overflows.
pub fn cell_spatial_position_bits(cell_index: u16) -> (bits: Option<i64>)
    ensures
        bits == Some(cell_position_bits(cell_index) as i64),
{
    let index_bits: i64 = (cell_index as i64) * 0x1_0000_0000;
    assert((index_bits * CELL_SPACING_BITS) / fixed_one() == cell_index * CELL_SPACING_BITS) by (nonlinear_arith)
        requires
            index_bits == cell_index * 0x1_0000_0000,
            cell_index <= 0xFFFF,
    ;
    assert(index_bits * CELL_SPACING_BITS * fixed_one() < 0x8000_0000_0000_0000_0000_0000_0000_0000) by (nonlinear_arith)
        requires
            index_bits == cell_index * 0x1_0000_0000,
            0 <= cell_index <= 0xFFFF,
    ;
    assert(0 <= index_bits * CELL_SPACING_BITS * fixed_one()) by (nonlinear_arith)
        requires
            index_bits == cell_index * 0x1_0000_0000,
            0 <= cell_index,
    ;
    fixed_checked_mul(index_bits, CELL_SPACING_BITS)
}

/// The step of one cell in a direction of travel, as `I32F32` bits: the
/// spacing forward, its negation in reverse.
pub open spec fn direction_step_bits(direction: MovementDirection) -> int {
    match direction {
        MovementDirection::Forward => CELL_SPACING_BITS as int,
        MovementDirection::Reverse => -CELL_SPACING_BITS,
    }
}

/// Computes the step of one cell in `direction`, as `I32F32` bits.
pub fn cell_spatial_vector_bits(direction: MovementDirection) -> (bits: Option<i64>)
    ensures
        bits == Some(direction_step_bits(direction) as i64),
{
    match direction {
        MovementDirection::Forward => Some(CELL_SPACING_BITS),
        MovementDirection::Reverse => fixed_checked_neg(CELL_SPACING_BITS),
    }
}

} // verus!
