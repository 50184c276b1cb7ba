//! The fixed-capacity lists of the offline server's state: the cards earned on
//! the current hole (at most four) and the strokes of each finished hole (at
//! most eighteen). Both are `heapless::Vec`s, used through the items below.
use vstd::prelude::*;

verus! {

#[verifier::external_type_specification]
#[verifier::external_body]
#[verifier::reject_recursive_types(T)]
pub struct ExHeaplessVec<T, const N: usize>(heapless::Vec<T, N>);

/// The card codes held, in order, by a list of at most four.
pub uninterp spec fn hole_cards_of(v: heapless::Vec<u8, 4>) -> Seq<u8>;

/// The stroke counts held, in order, by a list of at most eighteen.
pub uninterp spec fn hole_strokes_of(v: heapless::Vec<u16, 18>) -> Seq<u16>;

/// `heapless::Vec::new`: an empty list of card codes.
#[verifier::external_body]
pub fn hole_cards_new() -> (v: heapless::Vec<u8, 4>)
    ensures
        hole_cards_of(v) == Seq::<u8>::empty(),
{
    heapless::Vec::new()
}

/// `heapless::Vec::push`: appends `item` and reports `true` when fewer than
/// four codes are held; otherwise leaves the list as it was and reports `false`
/// (the crate hands the item back in an `Err`).
#[verifier::external_body]
pub fn hole_cards_push(v: &mut heapless::Vec<u8, 4>, item: u8) -> (pushed: bool)
    ensures
        pushed == (hole_cards_of(*old(v)).len() < 4),
        hole_cards_of(*final(v)) == if hole_cards_of(*old(v)).len() < 4 {
            hole_cards_of(*old(v)).push(item)
        } else {
            hole_cards_of(*old(v))
        },
{
    v.push(item).is_ok()
}

/// `heapless::Vec::clear`: empties the list of card codes.
#[verifier::external_body]
pub fn hole_cards_clear(v: &mut heapless::Vec<u8, 4>)
    ensures
        hole_cards_of(*final(v)) == Seq::<u8>::empty(),
{
    v.clear()
}

/// `heapless::Vec::as_slice`, copied into a `Vec`: the codes held, in order.
#[verifier::external_body]
pub fn hole_cards_to_vec(v: &heapless::Vec<u8, 4>) -> (items: Vec<u8>)
    ensures
        items@ == hole_cards_of(*v),
{
    v.as_slice().to_vec()
}

/// `heapless::Vec::new`: an empty list of stroke counts.
#[verifier::external_body]
pub fn hole_strokes_new() -> (v: heapless::Vec<u16, 18>)
    ensures
        hole_strokes_of(v) == Seq::<u16>::empty(),
{
    heapless::Vec::new()
}

/// `heapless::Vec::push`: appends `item` and reports `true` when fewer than
/// eighteen counts are held; otherwise leaves the list as it was and reports
/// `false` (the crate hands the item back in an `Err`).
#[verifier::external_body]
pub fn hole_strokes_push(v: &mut heapless::Vec<u16, 18>, item: u16) -> (pushed: bool)
    ensures
        pushed == (hole_strokes_of(*old(v)).len() < 18),
        hole_strokes_of(*final(v)) == if hole_strokes_of(*old(v)).len() < 18 {
            hole_strokes_of(*old(v)).push(item)
        } else {
            hole_strokes_of(*old(v))
        },
{
    v.push(item).is_ok()
}

/// `heapless::Vec::as_slice`, copied into a `Vec`: the counts held, in order.
#[verifier::external_body]
pub fn hole_strokes_to_vec(v: &heapless::Vec<u16, 18>) -> (items: Vec<u16>)
    ensures
        items@ == hole_strokes_of(*v),
{
    v.as_slice().to_vec()
}

} // verus!
