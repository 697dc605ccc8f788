//! Layout of the GPIO register block and the pure bit-field arithmetic of
//! the pin primitives.
//!
//! The block is 58 words of 32 bits. Function-select registers sit at word
//! offset 0, one register per 10 pins and 3 bits per pin. The set, clear
//! and level registers each cover 32 pins per word and start at fixed word
//! offsets. All pins this driver controls are below 32, so only the first
//! word of each of those registers is ever touched.

use vstd::prelude::*;
use crate::pins::{PinMode, SaksPins};

verus! {

/// Number of 32-bit words in the mapped GPIO register block.
pub const GPIO_REGISTER_COUNT: usize = 58;

/// Word offset of the first function-select register.
pub const GPFSEL0: usize = 0;

/// Word offset of the first set register (byte offset 0x1c).
pub const GPSET0: usize = 7;

/// Word offset of the first clear register (byte offset 0x28).
pub const GPCLR0: usize = 10;

/// Word offset of the first level register (byte offset 0x34).
pub const GPLEV0: usize = 13;

/// Whether `q` is a pin number the register block covers.
pub open spec fn spec_valid_bcm(q: u8) -> bool {
    (q as int) < GPIO_REGISTER_COUNT as int
}

/// The 3-bit function-select field of the pin at `slot` (0..10) within a
/// function-select register of value `v`.
pub open spec fn fsel_field_of(v: u32, slot: u32) -> u32 {
    (v >> (3 * slot)) & 7
}

/// A function-select register value `v` with the 3-bit field at `slot`
/// replaced by `code` and every other bit left as it was.
pub open spec fn fsel_with_field(v: u32, slot: u32, code: u32) -> u32 {
    (v & !(7u32 << (3 * slot))) | (code << (3 * slot))
}

/// Whether bit `b` (0..32) of the word `v` is set.
pub open spec fn bit_of(v: u32, b: u32) -> bool {
    v & (1u32 << b) != 0
}

/// The word `v` with bit `b` driven to `on` and every other bit kept.
pub open spec fn with_bit(v: u32, b: u32, on: bool) -> u32 {
    if on {
        v | (1u32 << b)
    } else {
        v & !(1u32 << b)
    }
}

/// Replacing one function-select field yields that field on read-back.
pub proof fn lemma_fsel_with_field_same(v: u32, slot: u32, code: u32)
    requires
        slot < 10,
        code < 8,
    ensures
        fsel_field_of(fsel_with_field(v, slot, code), slot) == code,
{
    assert((((v & !(7u32 << (3 * slot))) | (code << (3 * slot))) >> (3 * slot)) & 7 == code)
        by (bit_vector)
        requires
            slot < 10,
            code < 8,
    ;
}

/// Replacing one function-select field leaves every other field of the
/// same register bit-identical.
pub proof fn lemma_fsel_with_field_other(v: u32, slot: u32, code: u32, other: u32)
    requires
        slot < 10,
        code < 8,
        other < 10,
        other != slot,
    ensures
        fsel_field_of(fsel_with_field(v, slot, code), other) == fsel_field_of(v, other),
{
    assert((((v & !(7u32 << (3 * slot))) | (code << (3 * slot))) >> (3 * other)) & 7 == (v >> (
    3 * other)) & 7) by (bit_vector)
        requires
            slot < 10,
            code < 8,
            other < 10,
            other != slot,
    ;
}

/// An all-zero function-select register selects code 0 for every slot.
pub proof fn lemma_fsel_field_of_zero(slot: u32)
    requires
        slot < 10,
    ensures
        fsel_field_of(0, slot) == 0,
{
    assert((0u32 >> (3 * slot)) & 7 == 0) by (bit_vector);
}

/// Driving one bit yields that bit on read-back.
pub proof fn lemma_with_bit_same(v: u32, b: u32, on: bool)
    requires
        b < 32,
    ensures
        bit_of(with_bit(v, b, on), b) == on,
{
    assert((v | (1u32 << b)) & (1u32 << b) != 0) by (bit_vector)
        requires
            b < 32,
    ;
    assert((v & !(1u32 << b)) & (1u32 << b) == 0) by (bit_vector)
        requires
            b < 32,
    ;
}

/// Driving one bit leaves every other bit of the word as it was.
pub proof fn lemma_with_bit_other(v: u32, b: u32, on: bool, other: u32)
    requires
        b < 32,
        other < 32,
        other != b,
    ensures
        bit_of(with_bit(v, b, on), other) == bit_of(v, other),
{
    assert(((v | (1u32 << b)) & (1u32 << other) != 0) == (v & (1u32 << other) != 0))
        by (bit_vector)
        requires
            b < 32,
            other < 32,
            other != b,
    ;
    assert(((v & !(1u32 << b)) & (1u32 << other) != 0) == (v & (1u32 << other) != 0))
        by (bit_vector)
        requires
            b < 32,
            other < 32,
            other != b,
    ;
}

/// No bit of the all-zero word is set.
pub proof fn lemma_bit_of_zero(b: u32)
    requires
        b < 32,
    ensures
        !bit_of(0, b),
{
    assert(0u32 & (1u32 << b) == 0) by (bit_vector);
}

/// Bounds of the word index and bit position a pin number below 58
/// resolves to, in each of the register banks.
pub proof fn lemma_pin_arith(p: u8)
    requires
        p < 58,
    ensures
        p / 10 <= 5,
        p % 10 < 10,
        p / 32 <= 1,
        p % 32 < 32,
{
    assert(p / 10 <= 5 && p % 10 < 10 && p / 32 <= 1 && p % 32 < 32) by (bit_vector)
        requires
            p < 58,
    ;
}

/// Two distinct pin numbers either land in different words of a 32-pin
/// register bank, or at different bits of the same word.
pub proof fn lemma_distinct_pins_distinct_bits(p: u8, q: u8)
    requires
        p != q,
    ensures
        p / 32 != q / 32 || p % 32 != q % 32,
{
    assert(p / 32 != q / 32 || p % 32 != q % 32) by (bit_vector)
        requires
            p != q,
    ;
}

/// Two distinct pin numbers either use different function-select
/// registers, or different slots of the same register.
pub proof fn lemma_distinct_pins_distinct_slots(p: u8, q: u8)
    requires
        p != q,
    ensures
        p / 10 != q / 10 || p % 10 != q % 10,
{
    assert(p / 10 != q / 10 || p % 10 != q % 10) by (bit_vector)
        requires
            p != q,
    ;
}

/// Word index within the function-select bank of the register that holds
/// the function field of `pin`.
pub fn fsel_index(pin: SaksPins) -> (i: usize)
    ensures
        i == GPFSEL0 + pin.spec_bcm() / 10,
        i < 6,
{
    let bcm = pin.bcm();
    GPFSEL0 + (bcm / 10) as usize
}

/// Read-modify-write step of the function select: the register value
/// `reg` with exactly the 3-bit field of `pin` replaced by the code of
/// `mode`, all other pins' fields preserved bit-for-bit.
pub fn fsel_update(reg: u32, pin: SaksPins, mode: PinMode) -> (r: u32)
    ensures
        r == fsel_with_field(reg, (pin.spec_bcm() % 10) as u32, mode.spec_code()),
{
    let slot: u32 = (pin.bcm() % 10) as u32;
    let shift: u32 = 3 * slot;
    (reg & !(7u32 << shift)) | (mode.code() << shift)
}

/// Word index of the register a level write for `pin` goes to: a word of
/// the set bank when driving High, of the clear bank when driving Low.
pub fn level_write_index(pin: SaksPins, high: bool) -> (i: usize)
    ensures
        i == (if high {
            GPSET0
        } else {
            GPCLR0
        }) + pin.spec_bcm() / 32,
        i < GPIO_REGISTER_COUNT,
{
    let bcm = pin.bcm();
    (if high {
        GPSET0
    } else {
        GPCLR0
    }) + (bcm / 32) as usize
}

/// The one-bit pattern that addresses `pin` within a 32-pin register
/// word: the write-1-to-affect payload for the set and clear registers,
/// and the read mask for the level register. Exactly the pin's own bit is
/// set, so a set/clear write carrying it affects no other pin.
pub fn pin_bit_mask(pin: SaksPins) -> (v: u32)
    ensures
        v == 1u32 << ((pin.spec_bcm() % 32) as u32),
{
    let bcm = pin.bcm();
    1u32 << ((bcm % 32) as u32)
}

/// Word index within the level bank of the word that reports `pin`.
pub fn level_read_index(pin: SaksPins) -> (i: usize)
    ensures
        i == GPLEV0 + pin.spec_bcm() / 32,
        i < GPIO_REGISTER_COUNT,
{
    let bcm = pin.bcm();
    GPLEV0 + (bcm / 32) as usize
}

} // verus!
