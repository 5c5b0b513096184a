//! Brown-out reset: the option-byte level and the decisions made while
//! programming it (the register accesses themselves belong to the firmware).
//!
//! `OPTCR` layout: ST RM0410 (STM32F76xxx/F77xxx) §3.9.8; the BOR level sits
//! in bits 2..=3.

use vstd::prelude::*;

verus! {

/// Brown-out reset level programmed into STM32F7 option bytes.
///
/// `Level3` ≈ 2.1 V — appropriate for a 3.3 V ECU rail during cranking sags.
#[derive(Clone, Copy, Debug, PartialEq, Eq)]
pub enum BorLevel {
    Off,
    Level1,
    Level2,
    Level3,
}

/// First option-byte unlock key.
pub const OPTKEY1: u32 = 0x0819_2A3B;

/// Second option-byte unlock key.
pub const OPTKEY2: u32 = 0x4C5D_6E7F;

/// `OPTCR.BOR_LEV` field mask (bits 2:3).
pub const OPTCR_BOR_LEV_MASK: u32 = 0x0c;

/// `OPTCR.OPTSTRT` (bit 1).
pub const OPTCR_OPTSTRT: u32 = 0x02;

/// The register encoding of a level: `Off` is 0, `Level3` is 3.
pub open spec fn level_number(level: BorLevel) -> u8 {
    match level {
        BorLevel::Off => 0,
        BorLevel::Level1 => 1,
        BorLevel::Level2 => 2,
        BorLevel::Level3 => 3,
    }
}

/// The level encoded by a `BOR_LEV` field value (values above 3 read as
/// `Level3`, the field being two bits wide).
pub open spec fn level_of_field(field: u8) -> BorLevel {
    if field == 0 {
        BorLevel::Off
    } else if field == 1 {
        BorLevel::Level1
    } else if field == 2 {
        BorLevel::Level2
    } else {
        BorLevel::Level3
    }
}

impl BorLevel {
    /// The level the firmware programs: `Level3`.
    pub const TARGET: BorLevel = BorLevel::Level3;

    /// The register encoding of this level.
    pub fn value(self) -> (r: u8)
        ensures
            r == level_number(self),
    {
        match self {
            BorLevel::Off => 0,
            BorLevel::Level1 => 1,
            BorLevel::Level2 => 2,
            BorLevel::Level3 => 3,
        }
    }

    /// Decode the `BOR_LEV` field read back from `OPTCR`.
    pub fn from_field(field: u8) -> (r: BorLevel)
        ensures
            r == level_of_field(field),
    {
        match field {
            0 => BorLevel::Off,
            1 => BorLevel::Level1,
            2 => BorLevel::Level2,
            _ => BorLevel::Level3,
        }
    }

    /// Whether a device at `current` must be programmed to reach
    /// [`BorLevel::TARGET`] (levels already at or above it are left alone).
    pub fn needs_programming(current: BorLevel) -> (r: bool)
        ensures
            r == (level_number(current) < level_number(BorLevel::TARGET)),
    {
        current.value() < BorLevel::TARGET.value()
    }

    /// The `BOR_LEV` field value that selects [`BorLevel::TARGET`], in place.
    pub fn target_field_bits() -> (r: u32)
        ensures
            r == 4 * level_number(BorLevel::TARGET),
            r & OPTCR_BOR_LEV_MASK == r,
    {
        let r = (BorLevel::TARGET.value() as u32) << 2;
        assert(((3u8 as u32) << 2) == 12) by (bit_vector);
        assert(12u32 & 0x0c == 12) by (bit_vector);
        r
    }
}

/// Masked `OPTCR` write decision: `None` when the masked field already holds
/// `value` (nothing to program), otherwise the merged register value.
pub fn option_bytes_merge(current: u32, mask: u32, value: u32) -> (r: Option<u32>)
    ensures
        r == if current & mask == value {
            None
        } else {
            Some((current & !mask) | value)
        },
        r is None <==> current & mask == value,
        value & mask == value && r is Some ==> r.unwrap() & mask == value && r.unwrap() & !mask
            == current & !mask,
{
    proof {
        if value & mask == value {
            lemma_merge_writes_only_the_field(current, mask, value);
        }
    }
    if (current & mask) == value {
        return None;
    }
    Some((current & !mask) | value)
}

/// A masked write sets the masked field to `value` and leaves every other
/// bit of the register as it was.
pub proof fn lemma_merge_writes_only_the_field(current: u32, mask: u32, value: u32)
    by (bit_vector)
    requires
        value & mask == value,
    ensures
        ((current & !mask) | value) & mask == value,
        ((current & !mask) | value) & !mask == current & !mask,
{
}

/// Decoding the encoding of a level gives the level back, and the field
/// decoder only yields levels whose encoding is the field (up to three).
pub proof fn lemma_level_round_trip(level: BorLevel, field: u8)
    ensures
        level_of_field(level_number(level)) == level,
        field <= 3 ==> level_number(level_of_field(field)) == field,
        field > 3 ==> level_of_field(field) == BorLevel::Level3,
{
}

} // verus!
