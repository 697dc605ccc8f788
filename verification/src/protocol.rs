//! The two bit-banged protocol drivers, layered on the pin primitives.
//!
//! Each driver is stateless between calls: one call issues one fixed,
//! fully specified sequence of primitive operations — its frame — and the
//! contracts pin the recorded trace down to exactly that frame.

use vstd::prelude::*;
use crate::gpio::{GpioOp, Saks, lemma_set_level_effect};
use crate::pins::{SaksPins, VoltageLevel, spec_level_of_bit};
use crate::registers::spec_valid_bcm;

verus! {

/// Bit `i` of `byte`, least significant bit first.
pub open spec fn spec_bit(byte: u8, i: u8) -> bool {
    (byte >> i) & 1 == 1
}

/// The three operations that shift one bit into the 74HC595: the data
/// line is set to bit `i` of the byte, then the shift clock is driven Low
/// and High; the rising edge shifts the bit into the register.
pub open spec fn shift_bit_trace(byte: u8, i: u8) -> Seq<GpioOp> {
    seq![
        GpioOp::SetLevel(SaksPins::Ds, spec_level_of_bit(spec_bit(byte, i))),
        GpioOp::SetLevel(SaksPins::Shcp, VoltageLevel::Low),
        GpioOp::SetLevel(SaksPins::Shcp, VoltageLevel::High),
    ]
}

/// The operations that shift the lowest `n` bits of `byte` in, least
/// significant bit first.
pub open spec fn shift_bits_trace(byte: u8, n: int) -> Seq<GpioOp>
    decreases n,
{
    if n <= 0 {
        Seq::empty()
    } else {
        shift_bits_trace(byte, n - 1) + shift_bit_trace(byte, (n - 1) as u8)
    }
}

/// The full shift-register frame for one byte: all eight bits, least
/// significant first, then one Low-to-High pulse on the latch clock that
/// presents the shifted bits on the register's output pins.
pub open spec fn shift_frame_trace(byte: u8) -> Seq<GpioOp> {
    shift_bits_trace(byte, 8) + seq![
        GpioOp::SetLevel(SaksPins::Stcp, VoltageLevel::Low),
        GpioOp::SetLevel(SaksPins::Stcp, VoltageLevel::High),
    ]
}

impl Saks {
    /// Serializes `byte`, least significant bit first, into the 3-wire
    /// 74HC595 shift register that drives the LED row, and latches the
    /// result: exactly the operations of `shift_frame_trace(byte)`, eight
    /// shift-clock pulses and one latch pulse, with no delays.
    ///
    /// Writing the same byte twice reproduces the same output state.
    pub fn led_row_write_a_byte(&mut self, byte: u8)
        requires
            old(self)@.wf(),
        ensures
            final(self)@.wf(),
            final(self)@.trace == old(self)@.trace + shift_frame_trace(byte),
            final(self)@.is_high(SaksPins::Ds.spec_bcm()) == spec_bit(byte, 7),
            final(self)@.is_high(SaksPins::Shcp.spec_bcm()),
            final(self)@.is_high(SaksPins::Stcp.spec_bcm()),
            forall|q: u8|
                spec_valid_bcm(q) && q != SaksPins::Ds.spec_bcm() && q != SaksPins::Shcp.spec_bcm()
                    && q != SaksPins::Stcp.spec_bcm() ==> #[trigger] final(self)@.is_high(q) == old(
                    self,
                )@.is_high(q),
            forall|q: u8|
                spec_valid_bcm(q) ==> #[trigger] final(self)@.fsel_code(q) == old(
                    self,
                )@.fsel_code(q),
    {
        let ghost orig = self@;
        let mut i: u8 = 0;
        while i < 8
            invariant
                i <= 8,
                self@.wf(),
                self@.trace == orig.trace + shift_bits_trace(byte, i as int),
                i > 0 ==> self@.is_high(6) == spec_bit(byte, (i - 1) as u8),
                i > 0 ==> self@.is_high(19),
                forall|q: u8|
                    spec_valid_bcm(q) && q != 6 && q != 19 ==> #[trigger] self@.is_high(q)
                        == orig.is_high(q),
                forall|q: u8|
                    spec_valid_bcm(q) ==> #[trigger] self@.fsel_code(q) == orig.fsel_code(q),
            decreases 8 - i,
        {
            let b = (byte >> i) & 1 == 1;
            let ghost m0 = self@;
            self.set_is_high_level(SaksPins::Ds, b);
            let ghost m1 = self@;
            self.set_level(SaksPins::Shcp, VoltageLevel::Low);
            let ghost m2 = self@;
            self.set_level(SaksPins::Shcp, VoltageLevel::High);
            proof {
                lemma_set_level_effect(m0, SaksPins::Ds, spec_level_of_bit(b));
                lemma_set_level_effect(m1, SaksPins::Shcp, VoltageLevel::Low);
                lemma_set_level_effect(m2, SaksPins::Shcp, VoltageLevel::High);
                assert(m1.is_high(6) == b);
                assert(m2.is_high(6) == m1.is_high(6));
                assert(self@.is_high(6) == m2.is_high(6));
                assert(self@.is_high(19));
                assert forall|q: u8| spec_valid_bcm(q) && q != 6 && q != 19 implies #[trigger]
                    self@.is_high(q) == m0.is_high(q) by {
                    assert(m1.is_high(q) == m0.is_high(q));
                    assert(m2.is_high(q) == m1.is_high(q));
                    assert(self@.is_high(q) == m2.is_high(q));
                }
                assert forall|q: u8| spec_valid_bcm(q) implies #[trigger] self@.fsel_code(q)
                    == m0.fsel_code(q) by {
                    assert(m1.fsel_code(q) == m0.fsel_code(q));
                    assert(m2.fsel_code(q) == m1.fsel_code(q));
                    assert(self@.fsel_code(q) == m2.fsel_code(q));
                }
                assert(self@.trace =~= orig.trace + shift_bits_trace(byte, i as int + 1));
            }
            i = i + 1;
        }
        let ghost m5 = self@;
        self.set_level(SaksPins::Stcp, VoltageLevel::Low);
        let ghost m6 = self@;
        self.set_level(SaksPins::Stcp, VoltageLevel::High);
        proof {
            lemma_set_level_effect(m5, SaksPins::Stcp, VoltageLevel::Low);
            lemma_set_level_effect(m6, SaksPins::Stcp, VoltageLevel::High);
            assert(m6.is_high(6) == m5.is_high(6));
            assert(self@.is_high(6) == m6.is_high(6));
            assert(m6.is_high(19) == m5.is_high(19));
            assert(self@.is_high(19) == m6.is_high(19));
            assert(self@.is_high(13));
            assert forall|q: u8| spec_valid_bcm(q) && q != 6 && q != 19 && q != 13 implies
                #[trigger] self@.is_high(q) == orig.is_high(q) by {
                assert(m6.is_high(q) == m5.is_high(q));
                assert(self@.is_high(q) == m6.is_high(q));
            }
            assert forall|q: u8| spec_valid_bcm(q) implies #[trigger] self@.fsel_code(q)
                == orig.fsel_code(q) by {
                assert(m6.fsel_code(q) == m5.fsel_code(q));
                assert(self@.fsel_code(q) == m6.fsel_code(q));
            }
            assert(self@.trace =~= orig.trace + shift_frame_trace(byte));
        }
    }
}

/// Shape of the bit-shifting part of the frame: for every operation
/// index `k` below `3 * n`, the operation at a multiple of three sets
/// the data line to bit `k / 3` of the byte, and the two that follow
/// drive the shift clock Low and then High.
pub proof fn lemma_shift_bits_trace_layout(byte: u8, n: int)
    requires
        0 <= n <= 8,
    ensures
        shift_bits_trace(byte, n).len() == 3 * n,
        forall|k: int|
            0 <= k < 3 * n && k % 3 == 0 ==> #[trigger] shift_bits_trace(byte, n)[k]
                == GpioOp::SetLevel(SaksPins::Ds, spec_level_of_bit(spec_bit(byte, (k / 3) as u8))),
        forall|k: int|
            0 <= k < 3 * n && k % 3 == 1 ==> #[trigger] shift_bits_trace(byte, n)[k]
                == GpioOp::SetLevel(SaksPins::Shcp, VoltageLevel::Low),
        forall|k: int|
            0 <= k < 3 * n && k % 3 == 2 ==> #[trigger] shift_bits_trace(byte, n)[k]
                == GpioOp::SetLevel(SaksPins::Shcp, VoltageLevel::High),
    decreases n,
{
    if n > 0 {
        lemma_shift_bits_trace_layout(byte, n - 1);
    }
}

/// Shape of the whole shift-register frame: eight shift-clock Low/High
/// pulses, the data line set to bit `i` of the byte (least significant
/// first) before the `i`-th pulse, and a single latch-clock Low/High
/// pulse at the end — so one byte write produces exactly eight
/// shift-clock rising edges and one latch-clock rising edge.
pub proof fn lemma_shift_frame_layout(byte: u8)
    ensures
        shift_frame_trace(byte).len() == 26,
        forall|k: int|
            0 <= k < 24 && k % 3 == 0 ==> #[trigger] shift_frame_trace(byte)[k]
                == GpioOp::SetLevel(SaksPins::Ds, spec_level_of_bit(spec_bit(byte, (k / 3) as u8))),
        forall|k: int|
            0 <= k < 24 && k % 3 == 1 ==> #[trigger] shift_frame_trace(byte)[k]
                == GpioOp::SetLevel(SaksPins::Shcp, VoltageLevel::Low),
        forall|k: int|
            0 <= k < 24 && k % 3 == 2 ==> #[trigger] shift_frame_trace(byte)[k]
                == GpioOp::SetLevel(SaksPins::Shcp, VoltageLevel::High),
        shift_frame_trace(byte)[24] == GpioOp::SetLevel(SaksPins::Stcp, VoltageLevel::Low),
        shift_frame_trace(byte)[25] == GpioOp::SetLevel(SaksPins::Stcp, VoltageLevel::High),
{
    lemma_shift_bits_trace_layout(byte, 8);
}

/// The display writer's start condition: with the clock High, the data
/// line goes High and then Low — the controller's start marker — and the
/// clock returns Low, with a settling pause after each change.
pub open spec fn i2c_start_trace() -> Seq<GpioOp> {
    seq![
        GpioOp::SetLevel(SaksPins::Clk, VoltageLevel::High),
        GpioOp::SetLevel(SaksPins::Di, VoltageLevel::High),
        GpioOp::Delay,
        GpioOp::SetLevel(SaksPins::Di, VoltageLevel::Low),
        GpioOp::Delay,
        GpioOp::SetLevel(SaksPins::Clk, VoltageLevel::Low),
        GpioOp::Delay,
    ]
}

/// The operations that clock one data bit out to the display controller:
/// clock Low, data set to bit `i` of the byte, clock High, a pause after
/// every change; the controller samples the data line on the rising
/// clock edge.
pub open spec fn i2c_bit_trace(byte: u8, i: u8) -> Seq<GpioOp> {
    seq![
        GpioOp::SetLevel(SaksPins::Clk, VoltageLevel::Low),
        GpioOp::Delay,
        GpioOp::SetLevel(SaksPins::Di, spec_level_of_bit(spec_bit(byte, i))),
        GpioOp::Delay,
        GpioOp::SetLevel(SaksPins::Clk, VoltageLevel::High),
        GpioOp::Delay,
    ]
}

/// The operations that clock the lowest `n` bits of `byte` out, least
/// significant bit first.
pub open spec fn i2c_bits_trace(byte: u8, n: int) -> Seq<GpioOp>
    decreases n,
{
    if n <= 0 {
        Seq::empty()
    } else {
        i2c_bits_trace(byte, n - 1) + i2c_bit_trace(byte, (n - 1) as u8)
    }
}

/// The forced acknowledge pulse that ends a byte write: the data line is
/// released High and one more clock pulse is issued; the driver does not
/// sample an acknowledge bit (open-loop write).
pub open spec fn i2c_ack_trace() -> Seq<GpioOp> {
    seq![
        GpioOp::SetLevel(SaksPins::Clk, VoltageLevel::Low),
        GpioOp::Delay,
        GpioOp::SetLevel(SaksPins::Di, VoltageLevel::High),
        GpioOp::Delay,
        GpioOp::SetLevel(SaksPins::Clk, VoltageLevel::High),
        GpioOp::Delay,
    ]
}

/// The full display frame for one byte: eight data bits, least
/// significant first, then the forced acknowledge pulse — nine clock
/// rising edges in all.
pub open spec fn i2c_byte_trace(byte: u8) -> Seq<GpioOp> {
    i2c_bits_trace(byte, 8) + i2c_ack_trace()
}

/// The full frame for one command byte: a start condition, the byte, and
/// one more start-like framing pulse — and no other level changes.
pub open spec fn i2c_command_trace(command: u8) -> Seq<GpioOp> {
    i2c_start_trace() + i2c_byte_trace(command) + i2c_start_trace()
}

/// Shape of the bit-clocking part of the display frame: each group of
/// six operations drives the clock Low, pauses, sets the data line to
/// bit `k / 6` of the byte, pauses, drives the clock High (the rising
/// edge on which the controller samples the bit), and pauses again.
pub proof fn lemma_i2c_bits_trace_layout(byte: u8, n: int)
    requires
        0 <= n <= 8,
    ensures
        i2c_bits_trace(byte, n).len() == 6 * n,
        forall|k: int|
            0 <= k < 6 * n && k % 6 == 0 ==> #[trigger] i2c_bits_trace(byte, n)[k]
                == GpioOp::SetLevel(SaksPins::Clk, VoltageLevel::Low),
        forall|k: int|
            0 <= k < 6 * n && k % 6 == 2 ==> #[trigger] i2c_bits_trace(byte, n)[k]
                == GpioOp::SetLevel(SaksPins::Di, spec_level_of_bit(spec_bit(byte, (k / 6) as u8))),
        forall|k: int|
            0 <= k < 6 * n && k % 6 == 4 ==> #[trigger] i2c_bits_trace(byte, n)[k]
                == GpioOp::SetLevel(SaksPins::Clk, VoltageLevel::High),
        forall|k: int|
            0 <= k < 6 * n && (k % 6 == 1 || k % 6 == 3 || k % 6 == 5) ==> #[trigger] i2c_bits_trace(
                byte,
                n,
            )[k] == GpioOp::Delay,
    decreases n,
{
    if n > 0 {
        lemma_i2c_bits_trace_layout(byte, n - 1);
    }
}

/// Shape of the whole display byte frame: eight clock Low-to-High
/// transitions, each preceded by the data line set to bit `i` of the
/// byte (least significant first), followed by the forced acknowledge
/// pulse with the data line High — nine clock rising edges in all, with
/// a settling pause after every level change.
pub proof fn lemma_i2c_byte_frame_layout(byte: u8)
    ensures
        i2c_byte_trace(byte).len() == 54,
        forall|k: int|
            0 <= k < 48 && k % 6 == 0 ==> #[trigger] i2c_byte_trace(byte)[k] == GpioOp::SetLevel(
                SaksPins::Clk,
                VoltageLevel::Low,
            ),
        forall|k: int|
            0 <= k < 48 && k % 6 == 2 ==> #[trigger] i2c_byte_trace(byte)[k] == GpioOp::SetLevel(
                SaksPins::Di,
                spec_level_of_bit(spec_bit(byte, (k / 6) as u8)),
            ),
        forall|k: int|
            0 <= k < 48 && k % 6 == 4 ==> #[trigger] i2c_byte_trace(byte)[k] == GpioOp::SetLevel(
                SaksPins::Clk,
                VoltageLevel::High,
            ),
        forall|k: int|
            0 <= k < 48 && (k % 6 == 1 || k % 6 == 3 || k % 6 == 5) ==> #[trigger] i2c_byte_trace(
                byte,
            )[k] == GpioOp::Delay,
        i2c_byte_trace(byte)[48] == GpioOp::SetLevel(SaksPins::Clk, VoltageLevel::Low),
        i2c_byte_trace(byte)[49] == GpioOp::Delay,
        i2c_byte_trace(byte)[50] == GpioOp::SetLevel(SaksPins::Di, VoltageLevel::High),
        i2c_byte_trace(byte)[51] == GpioOp::Delay,
        i2c_byte_trace(byte)[52] == GpioOp::SetLevel(SaksPins::Clk, VoltageLevel::High),
        i2c_byte_trace(byte)[53] == GpioOp::Delay,
{
    lemma_i2c_bits_trace_layout(byte, 8);
}

impl Saks {
    /// Issues the display controller's start condition: exactly the
    /// operations of `i2c_start_trace()`, leaving clock and data Low.
    pub fn i2c_bus_start(&mut self)
        requires
            old(self)@.wf(),
        ensures
            final(self)@.wf(),
            final(self)@.trace == old(self)@.trace + i2c_start_trace(),
            !final(self)@.is_high(SaksPins::Clk.spec_bcm()),
            !final(self)@.is_high(SaksPins::Di.spec_bcm()),
            forall|q: u8|
                spec_valid_bcm(q) && q != SaksPins::Clk.spec_bcm() && q != SaksPins::Di.spec_bcm()
                    ==> #[trigger] final(self)@.is_high(q) == old(self)@.is_high(q),
            forall|q: u8|
                spec_valid_bcm(q) ==> #[trigger] final(self)@.fsel_code(q) == old(
                    self,
                )@.fsel_code(q),
    {
        let ghost m0 = self@;
        self.set_level(SaksPins::Clk, VoltageLevel::High);
        let ghost m1 = self@;
        self.set_level(SaksPins::Di, VoltageLevel::High);
        let ghost m2 = self@;
        self.i2c_bus_delay();
        let ghost m3 = self@;
        self.set_level(SaksPins::Di, VoltageLevel::Low);
        let ghost m4 = self@;
        self.i2c_bus_delay();
        let ghost m5 = self@;
        self.set_level(SaksPins::Clk, VoltageLevel::Low);
        let ghost m6 = self@;
        self.i2c_bus_delay();
        proof {
            lemma_set_level_effect(m0, SaksPins::Clk, VoltageLevel::High);
            lemma_set_level_effect(m1, SaksPins::Di, VoltageLevel::High);
            lemma_set_level_effect(m3, SaksPins::Di, VoltageLevel::Low);
            lemma_set_level_effect(m5, SaksPins::Clk, VoltageLevel::Low);
            assert(!m4.is_high(25));
            assert(m5.is_high(25) == m4.is_high(25));
            assert(m6.is_high(25) == m5.is_high(25));
            assert(self@.is_high(25) == m6.is_high(25));
            assert(!m6.is_high(5));
            assert(self@.is_high(5) == m6.is_high(5));
            assert forall|q: u8| spec_valid_bcm(q) && q != 5 && q != 25 implies #[trigger]
                self@.is_high(q) == m0.is_high(q) by {
                assert(m1.is_high(q) == m0.is_high(q));
                assert(m2.is_high(q) == m1.is_high(q));
                assert(m3.is_high(q) == m2.is_high(q));
                assert(m4.is_high(q) == m3.is_high(q));
                assert(m5.is_high(q) == m4.is_high(q));
                assert(m6.is_high(q) == m5.is_high(q));
                assert(self@.is_high(q) == m6.is_high(q));
            }
            assert forall|q: u8| spec_valid_bcm(q) implies #[trigger] self@.fsel_code(q)
                == m0.fsel_code(q) by {
                assert(m1.fsel_code(q) == m0.fsel_code(q));
                assert(m2.fsel_code(q) == m1.fsel_code(q));
                assert(m3.fsel_code(q) == m2.fsel_code(q));
                assert(m4.fsel_code(q) == m3.fsel_code(q));
                assert(m5.fsel_code(q) == m4.fsel_code(q));
                assert(m6.fsel_code(q) == m5.fsel_code(q));
                assert(self@.fsel_code(q) == m6.fsel_code(q));
            }
            assert(self@.trace =~= m0.trace + i2c_start_trace());
        }
    }

    /// Clocks `byte` out to the display controller, least significant
    /// bit first, and issues the forced acknowledge pulse: exactly the
    /// operations of `i2c_byte_trace(byte)`, leaving clock and data
    /// High.
    pub fn i2c_bus_write_byte(&mut self, byte: u8)
        requires
            old(self)@.wf(),
        ensures
            final(self)@.wf(),
            final(self)@.trace == old(self)@.trace + i2c_byte_trace(byte),
            final(self)@.is_high(SaksPins::Clk.spec_bcm()),
            final(self)@.is_high(SaksPins::Di.spec_bcm()),
            forall|q: u8|
                spec_valid_bcm(q) && q != SaksPins::Clk.spec_bcm() && q != SaksPins::Di.spec_bcm()
                    ==> #[trigger] final(self)@.is_high(q) == old(self)@.is_high(q),
            forall|q: u8|
                spec_valid_bcm(q) ==> #[trigger] final(self)@.fsel_code(q) == old(
                    self,
                )@.fsel_code(q),
    {
        let ghost orig = self@;
        let mut i: u8 = 0;
        while i < 8
            invariant
                i <= 8,
                self@.wf(),
                self@.trace == orig.trace + i2c_bits_trace(byte, i as int),
                forall|q: u8|
                    spec_valid_bcm(q) && q != 5 && q != 25 ==> #[trigger] self@.is_high(q)
                        == orig.is_high(q),
                forall|q: u8|
                    spec_valid_bcm(q) ==> #[trigger] self@.fsel_code(q) == orig.fsel_code(q),
            decreases 8 - i,
        {
            let b = (byte >> i) & 1 == 1;
            let ghost m0 = self@;
            self.set_level(SaksPins::Clk, VoltageLevel::Low);
            let ghost m1 = self@;
            self.i2c_bus_delay();
            let ghost m2 = self@;
            self.set_is_high_level(SaksPins::Di, b);
            let ghost m3 = self@;
            self.i2c_bus_delay();
            let ghost m4 = self@;
            self.set_level(SaksPins::Clk, VoltageLevel::High);
            let ghost m5 = self@;
            self.i2c_bus_delay();
            proof {
                lemma_set_level_effect(m0, SaksPins::Clk, VoltageLevel::Low);
                lemma_set_level_effect(m2, SaksPins::Di, spec_level_of_bit(b));
                lemma_set_level_effect(m4, SaksPins::Clk, VoltageLevel::High);
                assert forall|q: u8| spec_valid_bcm(q) && q != 5 && q != 25 implies #[trigger]
                    self@.is_high(q) == m0.is_high(q) by {
                    assert(m1.is_high(q) == m0.is_high(q));
                    assert(m2.is_high(q) == m1.is_high(q));
                    assert(m3.is_high(q) == m2.is_high(q));
                    assert(m4.is_high(q) == m3.is_high(q));
                    assert(m5.is_high(q) == m4.is_high(q));
                    assert(self@.is_high(q) == m5.is_high(q));
                }
                assert forall|q: u8| spec_valid_bcm(q) implies #[trigger] self@.fsel_code(q)
                    == m0.fsel_code(q) by {
                    assert(m1.fsel_code(q) == m0.fsel_code(q));
                    assert(m2.fsel_code(q) == m1.fsel_code(q));
                    assert(m3.fsel_code(q) == m2.fsel_code(q));
                    assert(m4.fsel_code(q) == m3.fsel_code(q));
                    assert(m5.fsel_code(q) == m4.fsel_code(q));
                    assert(self@.fsel_code(q) == m5.fsel_code(q));
                }
                assert(self@.trace =~= orig.trace + i2c_bits_trace(byte, i as int + 1));
            }
            i = i + 1;
        }
        let ghost t0 = self@;
        self.set_level(SaksPins::Clk, VoltageLevel::Low);
        let ghost t1 = self@;
        self.i2c_bus_delay();
        let ghost t2 = self@;
        self.set_level(SaksPins::Di, VoltageLevel::High);
        let ghost t3 = self@;
        self.i2c_bus_delay();
        let ghost t4 = self@;
        self.set_level(SaksPins::Clk, VoltageLevel::High);
        let ghost t5 = self@;
        self.i2c_bus_delay();
        proof {
            lemma_set_level_effect(t0, SaksPins::Clk, VoltageLevel::Low);
            lemma_set_level_effect(t2, SaksPins::Di, VoltageLevel::High);
            lemma_set_level_effect(t4, SaksPins::Clk, VoltageLevel::High);
            assert(t3.is_high(25));
            assert(t4.is_high(25) == t3.is_high(25));
            assert(t5.is_high(25) == t4.is_high(25));
            assert(self@.is_high(25) == t5.is_high(25));
            assert(t5.is_high(5));
            assert(self@.is_high(5) == t5.is_high(5));
            assert forall|q: u8| spec_valid_bcm(q) && q != 5 && q != 25 implies #[trigger]
                self@.is_high(q) == orig.is_high(q) by {
                assert(t1.is_high(q) == t0.is_high(q));
                assert(t2.is_high(q) == t1.is_high(q));
                assert(t3.is_high(q) == t2.is_high(q));
                assert(t4.is_high(q) == t3.is_high(q));
                assert(t5.is_high(q) == t4.is_high(q));
                assert(self@.is_high(q) == t5.is_high(q));
            }
            assert forall|q: u8| spec_valid_bcm(q) implies #[trigger] self@.fsel_code(q)
                == orig.fsel_code(q) by {
                assert(t1.fsel_code(q) == t0.fsel_code(q));
                assert(t2.fsel_code(q) == t1.fsel_code(q));
                assert(t3.fsel_code(q) == t2.fsel_code(q));
                assert(t4.fsel_code(q) == t3.fsel_code(q));
                assert(t5.fsel_code(q) == t4.fsel_code(q));
                assert(self@.fsel_code(q) == t5.fsel_code(q));
            }
            assert(self@.trace =~= orig.trace + i2c_byte_trace(byte));
        }
    }

    /// Writes one command byte to the display controller: a start
    /// condition, the byte with its acknowledge pulse, and one more
    /// start-like framing pulse — exactly the operations of
    /// `i2c_command_trace(command)`, and no other level changes.
    pub fn i2c_bus_write_command(&mut self, command: u8)
        requires
            old(self)@.wf(),
        ensures
            final(self)@.wf(),
            final(self)@.trace == old(self)@.trace + i2c_command_trace(command),
            !final(self)@.is_high(SaksPins::Clk.spec_bcm()),
            !final(self)@.is_high(SaksPins::Di.spec_bcm()),
            forall|q: u8|
                spec_valid_bcm(q) && q != SaksPins::Clk.spec_bcm() && q != SaksPins::Di.spec_bcm()
                    ==> #[trigger] final(self)@.is_high(q) == old(self)@.is_high(q),
            forall|q: u8|
                spec_valid_bcm(q) ==> #[trigger] final(self)@.fsel_code(q) == old(
                    self,
                )@.fsel_code(q),
    {
        let ghost m0 = self@;
        self.i2c_bus_start();
        let ghost m1 = self@;
        self.i2c_bus_write_byte(command);
        let ghost m2 = self@;
        self.i2c_bus_start();
        proof {
            assert forall|q: u8| spec_valid_bcm(q) && q != 5 && q != 25 implies #[trigger]
                self@.is_high(q) == m0.is_high(q) by {
                assert(m1.is_high(q) == m0.is_high(q));
                assert(m2.is_high(q) == m1.is_high(q));
                assert(self@.is_high(q) == m2.is_high(q));
            }
            assert forall|q: u8| spec_valid_bcm(q) implies #[trigger] self@.fsel_code(q)
                == m0.fsel_code(q) by {
                assert(m1.fsel_code(q) == m0.fsel_code(q));
                assert(m2.fsel_code(q) == m1.fsel_code(q));
                assert(self@.fsel_code(q) == m2.fsel_code(q));
            }
            assert(self@.trace =~= m0.trace + i2c_command_trace(command));
        }
    }
}

} // verus!
