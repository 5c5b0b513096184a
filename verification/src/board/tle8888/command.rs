//! TLE8888 SPI command encoding.
//!
//! A command halfword carries the write flag in bit 0, the 7-bit register
//! address in bits 1..=7 and the 8-bit payload in bits 8..=15.

use vstd::prelude::*;

verus! {

/// SPI write bit.
pub const CMD_WRITE: u16 = 1;

/// SPI read bit (write bit clear).
pub const CMD_READ: u16 = 0;

/// Status register read-back command: write `0x03` to register `0x1a`.
pub const CMD_SR: u16 = 0x0335;

/// Chip unlock: write `0x01` to register `0x1e`.
pub const CMD_CHIP_UNLOCK: u16 = 0x013d;

/// Output enable set: write `0x02` to register `0x1c`.
pub const CMD_OE_SET: u16 = 0x0239;

/// Output enable clear: write `0x01` to register `0x1c`.
pub const CMD_OE_CLR: u16 = 0x0139;

/// Window-watchdog service: write `0x03` to register `0x15`.
pub const CMD_WWDSERVICECMD: u16 = 0x032b;

/// Default INCONFIG value: maps aux inputs to a non-existent output so SPI
/// retains sole control.
pub const DEFAULT_INCONFIG: u8 = 20;

/// Window-watchdog service period in milliseconds.
pub const WWD_PERIOD_MS: u64 = 101;

/// IWDG timeout target for the MCU backstop watchdog, microseconds.
pub const IWDG_TIMEOUT_US: u32 = 2_000_000;

/// Number of commands in [`INIT_SAFE`].
pub const INIT_SAFE_LEN: usize = 21;

/// Safe bring-up sequence: unlock the chip, route the aux inputs away, set
/// the diagnostic OUTCONFIG values, clear OE/DD configuration, configure the
/// VR input and finally clear output enable. INJ_EN / IGN_EN stay with the
/// caller.
pub const INIT_SAFE: [u16; 21] = [
    0x013d, 0x14a7, 0x14a9, 0x14ab, 0x14ad, 0xaa81, 0x2a83, 0x0085, 0x2087, 0x2a89, 0x2a8b,
    0x00b1, 0x00b9, 0x00b3, 0x00bb, 0x00b5, 0x00bd, 0x00b7, 0x00bf, 0x0095, 0x0139,
];

/// The halfword of a write command, as a number: write flag, register
/// address (low 7 bits of `reg`) shifted by one, payload in the high byte.
pub open spec fn write_word(reg: int, data: int) -> int {
    1 + 2 * (reg % 128) + 256 * data
}

/// The halfword of a read command, as a number.
pub open spec fn read_word(reg: int) -> int {
    2 * (reg % 128)
}

/// The register address carried by a command halfword.
pub open spec fn register_of(tx: int) -> int {
    (tx / 2) % 128
}

/// The payload byte carried by a command halfword.
pub open spec fn data_of(tx: int) -> int {
    tx / 256
}

/// Whether a command halfword has the write flag set.
pub open spec fn is_write(tx: int) -> bool {
    tx % 2 == 1
}

/// The commands of the safe bring-up sequence, in order, as numbers.
pub open spec fn init_safe_words() -> Seq<int> {
    seq![
        write_word(0x1e, 0x01),
        write_word(0x53, 20),
        write_word(0x54, 20),
        write_word(0x55, 20),
        write_word(0x56, 20),
        write_word(0x40, 0xaa),
        write_word(0x41, 0x2a),
        write_word(0x42, 0),
        write_word(0x43, 0x20),
        write_word(0x44, 0x2a),
        write_word(0x45, 0x2a),
        write_word(0x58, 0),
        write_word(0x5c, 0),
        write_word(0x59, 0),
        write_word(0x5d, 0),
        write_word(0x5a, 0),
        write_word(0x5e, 0),
        write_word(0x5b, 0),
        write_word(0x5f, 0),
        write_word(0x4a, 0),
        write_word(0x1c, 0x01),
    ]
}

/// Masking with `0x03` keeps the value modulo four.
proof fn lemma_low_two_bits(n: u8)
    by (bit_vector)
    ensures
        n & 0x03 == n % 4,
{
}

/// Build a 16-bit write command: register address + 8-bit payload.
pub fn cmd_w(reg: u8, data: u8) -> (r: u16)
    ensures
        r == write_word(reg as int, data as int),
        is_write(r as int),
        register_of(r as int) == reg % 128,
        data_of(r as int) == data,
{
    let r = CMD_WRITE | (((reg as u16) & 0x7f) << 1) | ((data as u16) << 8);
    assert(1u16 | (((reg as u16) & 0x7f) << 1) | ((data as u16) << 8) == 1 + 2 * (reg % 128) + 256
        * data) by (bit_vector);
    r
}

/// Build a 16-bit read command.
pub fn cmd_r(reg: u8) -> (r: u16)
    ensures
        r == read_word(reg as int),
        !is_write(r as int),
        register_of(r as int) == reg % 128,
        data_of(r as int) == 0,
{
    let r = CMD_READ | (((reg as u16) & 0x7f) << 1);
    assert(0u16 | (((reg as u16) & 0x7f) << 1) == 2 * (reg % 128)) by (bit_vector);
    r
}

/// INCONFIG register `n` (only the low two bits of `n` select it).
pub fn cmd_inconfig(n: u8, data: u8) -> (r: u16)
    ensures
        r == write_word(0x53 + n % 4, data as int),
        is_write(r as int),
        register_of(r as int) == 0x53 + n % 4,
        data_of(r as int) == data,
{
    proof {
        lemma_low_two_bits(n);
    }
    cmd_w(0x53 + (n & 0x03), data)
}

/// OUTCONFIG register `n`.
pub fn cmd_outconfig(n: u8, data: u8) -> (r: u16)
    requires
        0x40 + n <= u8::MAX,
    ensures
        r == write_word(0x40 + n, data as int),
        is_write(r as int),
        register_of(r as int) == (0x40 + n) % 128,
        data_of(r as int) == data,
{
    cmd_w(0x40 + n, data)
}

/// OECONFIG register `n`.
pub fn cmd_oeconfig(n: u8, data: u8) -> (r: u16)
    requires
        0x58 + n <= u8::MAX,
    ensures
        r == write_word(0x58 + n, data as int),
        is_write(r as int),
        register_of(r as int) == (0x58 + n) % 128,
        data_of(r as int) == data,
{
    cmd_w(0x58 + n, data)
}

/// DDCONFIG register `n`.
pub fn cmd_ddconfig(n: u8, data: u8) -> (r: u16)
    requires
        0x5c + n <= u8::MAX,
    ensures
        r == write_word(0x5c + n, data as int),
        is_write(r as int),
        register_of(r as int) == (0x5c + n) % 128,
        data_of(r as int) == data,
{
    cmd_w(0x5c + n, data)
}

/// VRSCONFIG register `n` (only the low two bits of `n` select it).
pub fn cmd_vrsconfig(n: u8, data: u8) -> (r: u16)
    ensures
        r == write_word(0x49 + n % 4, data as int),
        is_write(r as int),
        register_of(r as int) == 0x49 + n % 4,
        data_of(r as int) == data,
{
    proof {
        lemma_low_two_bits(n);
    }
    cmd_w(0x49 + (n & 0x03), data)
}

/// Extract the register address from a command halfword.
pub fn register_from_cmd(tx: u16) -> (r: u8)
    ensures
        r == register_of(tx as int),
{
    let r = ((tx >> 1) & 0x7f) as u8;
    assert((((tx >> 1) & 0x7f) as u8) == (tx / 2) % 128) by (bit_vector);
    r
}

/// Extract the data byte from a write command.
pub fn data_from_cmd(tx: u16) -> (r: u8)
    ensures
        r == data_of(tx as int),
{
    let r = (tx >> 8) as u8;
    assert(((tx >> 8) as u8) == tx / 256) by (bit_vector);
    r
}

/// A write command carries the write flag, its register address (low seven
/// bits) and its payload, and the decoders give both back.
pub proof fn lemma_write_command_round_trip(reg: u8, data: u8)
    ensures
        is_write(write_word(reg as int, data as int)),
        register_of(write_word(reg as int, data as int)) == reg % 128,
        data_of(write_word(reg as int, data as int)) == data,
        0 <= write_word(reg as int, data as int) <= u16::MAX,
{
}

/// A read command has the write flag clear, an empty payload, and the
/// register decoder gives back its address.
pub proof fn lemma_read_command_round_trip(reg: u8)
    ensures
        !is_write(read_word(reg as int)),
        register_of(read_word(reg as int)) == reg % 128,
        data_of(read_word(reg as int)) == 0,
{
}

/// The named command constants are the write commands they stand for.
pub proof fn lemma_named_commands()
    ensures
        CMD_SR == write_word(0x1a, 0x03),
        CMD_CHIP_UNLOCK == write_word(0x1e, 0x01),
        CMD_OE_SET == write_word(0x1c, 0x02),
        CMD_OE_CLR == write_word(0x1c, 0x01),
        CMD_WWDSERVICECMD == write_word(0x15, 0x03),
{
}

/// The safe bring-up sequence is exactly the documented command list: it
/// starts by unlocking the chip, never sets output enable, and ends by
/// clearing it.
pub proof fn lemma_init_safe_sequence()
    ensures
        INIT_SAFE@.len() == INIT_SAFE_LEN,
        forall|i: int| 0 <= i < INIT_SAFE_LEN ==> INIT_SAFE@[i] == #[trigger] init_safe_words()[i],
        INIT_SAFE@[0] == CMD_CHIP_UNLOCK,
        INIT_SAFE@[INIT_SAFE_LEN - 1] == CMD_OE_CLR,
        forall|i: int| 0 <= i < INIT_SAFE_LEN ==> #[trigger] INIT_SAFE@[i] != CMD_OE_SET,
{
    assert(INIT_SAFE@.len() == 21);
}

} // verus!
