//! Firing-order presets (0-based cylinder indices).

use vstd::prelude::*;

verus! {

/// Inline-4: 1-3-4-2 (e.g. Toyota, BMW, Miata).
pub fn inline_4_1342() -> (r: &'static [u8])
    ensures
        r@ == seq![0u8, 2, 3, 1],
{
    &[0, 2, 3, 1]
}

/// Inline-4: 1-3-2-4.
pub fn inline_4_1324() -> (r: &'static [u8])
    ensures
        r@ == seq![0u8, 2, 1, 3],
{
    &[0, 2, 1, 3]
}

/// Inline-4: 1-2-3-4.
pub fn inline_4_1234() -> (r: &'static [u8])
    ensures
        r@ == seq![0u8, 1, 2, 3],
{
    &[0, 1, 2, 3]
}

/// Inline-3: 1-2-3.
pub fn inline_3_123() -> (r: &'static [u8])
    ensures
        r@ == seq![0u8, 1, 2],
{
    &[0, 1, 2]
}

/// V-twin: front then rear.
pub fn v_twin_front_rear() -> (r: &'static [u8])
    ensures
        r@ == seq![0u8, 1],
{
    &[0, 1]
}

} // verus!
