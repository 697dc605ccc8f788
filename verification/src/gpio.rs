//! The register interface: a model of the mapped GPIO block, the three
//! pin primitives, and the interface lifecycle.
//!
//! `Saks` owns a bounds-checked array standing for the mapped register
//! block and keeps a trace of every primitive operation it issues. The
//! array carries the hardware semantics of the block: function-select
//! registers are plain read-modify-write words, while a level write goes
//! through the write-1-to-affect set/clear convention and lands as the
//! pin's bit in the read-only level word. An unverified shim can replay
//! the trace against the real mapped registers, one register access per
//! operation, using the verified arithmetic of `registers`.

use vstd::prelude::*;
use vstd::pervasive::VecAdditionalExecFns;
use crate::pins::{PinMode, SaksPins, VoltageLevel, spec_level_of_bit};
use crate::registers::{
    GPFSEL0, GPIO_REGISTER_COUNT, GPLEV0, bit_of, fsel_field_of, fsel_index, fsel_update,
    fsel_with_field, lemma_bit_of_zero, lemma_distinct_pins_distinct_bits,
    lemma_distinct_pins_distinct_slots, lemma_fsel_field_of_zero, lemma_fsel_with_field_other,
    lemma_fsel_with_field_same, lemma_pin_arith, lemma_with_bit_other, lemma_with_bit_same,
    level_read_index, pin_bit_mask, spec_valid_bcm, with_bit,
};

verus! {

/// One primitive operation of the register interface, as recorded in the
/// trace: selecting a pin's function, driving a pin's level, or a fixed
/// settling pause.
#[derive(Clone, Copy, PartialEq, Eq, Structural, Debug)]
pub enum GpioOp {
    SetFunction(SaksPins, PinMode),
    SetLevel(SaksPins, VoltageLevel),
    Delay,
}

/// Mathematical state of the register interface: the 58 register words
/// and the operations issued so far.
pub ghost struct GpioModel {
    pub regs: Seq<u32>,
    pub trace: Seq<GpioOp>,
}

impl GpioModel {
    /// The register block has its full fixed length.
    pub open spec fn wf(self) -> bool {
        self.regs.len() == GPIO_REGISTER_COUNT
    }

    /// The 3-bit function-select code currently held for pin `bcm`.
    pub open spec fn fsel_code(self, bcm: u8) -> u32 {
        fsel_field_of(self.regs[GPFSEL0 + (bcm / 10) as int], (bcm % 10) as u32)
    }

    /// Whether the level register reads pin `bcm` as High.
    pub open spec fn is_high(self, bcm: u8) -> bool {
        bit_of(self.regs[GPLEV0 + (bcm / 32) as int], (bcm % 32) as u32)
    }

    /// Effect of a function select: a read-modify-write that replaces
    /// exactly the pin's 3-bit field of its function-select register.
    pub open spec fn do_set_function(self, pin: SaksPins, mode: PinMode) -> GpioModel {
        GpioModel {
            regs: self.regs.update(
                GPFSEL0 + (pin.spec_bcm() / 10) as int,
                fsel_with_field(
                    self.regs[GPFSEL0 + (pin.spec_bcm() / 10) as int],
                    (pin.spec_bcm() % 10) as u32,
                    mode.spec_code(),
                ),
            ),
            trace: self.trace.push(GpioOp::SetFunction(pin, mode)),
        }
    }

    /// Effect of a level write: the one-bit set/clear command drives
    /// exactly the pin's bit of its level word to the requested level.
    pub open spec fn do_set_level(self, pin: SaksPins, level: VoltageLevel) -> GpioModel {
        GpioModel {
            regs: self.regs.update(
                GPLEV0 + (pin.spec_bcm() / 32) as int,
                with_bit(
                    self.regs[GPLEV0 + (pin.spec_bcm() / 32) as int],
                    (pin.spec_bcm() % 32) as u32,
                    level.spec_is_high(),
                ),
            ),
            trace: self.trace.push(GpioOp::SetLevel(pin, level)),
        }
    }

    /// Effect of a settling pause: the registers are untouched.
    pub open spec fn do_delay(self) -> GpioModel {
        GpioModel { regs: self.regs, trace: self.trace.push(GpioOp::Delay) }
    }
}

/// Round trip and non-interference of the function select: after
/// `do_set_function(pin, mode)` the pin's field reads back as `mode`'s
/// code, every other pin's field is byte-identical to before, no level
/// changes, and exactly one operation is recorded.
pub proof fn lemma_set_function_effect(m: GpioModel, pin: SaksPins, mode: PinMode)
    requires
        m.wf(),
    ensures
        m.do_set_function(pin, mode).wf(),
        m.do_set_function(pin, mode).fsel_code(pin.spec_bcm()) == mode.spec_code(),
        forall|q: u8|
            spec_valid_bcm(q) && q != pin.spec_bcm() ==> #[trigger] m.do_set_function(
                pin,
                mode,
            ).fsel_code(q) == m.fsel_code(q),
        forall|q: u8|
            spec_valid_bcm(q) ==> #[trigger] m.do_set_function(pin, mode).is_high(q) == m.is_high(
                q,
            ),
        forall|j: int|
            0 <= j < GPIO_REGISTER_COUNT && j != GPFSEL0 + pin.spec_bcm() / 10
                ==> #[trigger] m.do_set_function(pin, mode).regs[j] == m.regs[j],
        m.do_set_function(pin, mode).trace == m.trace.push(GpioOp::SetFunction(pin, mode)),
{
    let p = pin.spec_bcm();
    let m2 = m.do_set_function(pin, mode);
    lemma_pin_arith(p);
    lemma_fsel_with_field_same(m.regs[GPFSEL0 + (p / 10) as int], (p % 10) as u32, mode.spec_code());
    assert forall|q: u8| spec_valid_bcm(q) && q != p implies m2.fsel_code(q) == m.fsel_code(q) by {
        lemma_pin_arith(q);
        lemma_distinct_pins_distinct_slots(p, q);
        if q / 10 == p / 10 {
            lemma_fsel_with_field_other(
                m.regs[GPFSEL0 + (p / 10) as int],
                (p % 10) as u32,
                mode.spec_code(),
                (q % 10) as u32,
            );
        }
    }
    assert forall|q: u8| spec_valid_bcm(q) implies m2.is_high(q) == m.is_high(q) by {
        lemma_pin_arith(q);
    }
}

/// Write-1-to-affect isolation of a level write: after
/// `do_set_level(pin, level)` the pin reads back `level`, every other
/// pin's level is as before, no function-select register changes, and
/// exactly one operation is recorded.
pub proof fn lemma_set_level_effect(m: GpioModel, pin: SaksPins, level: VoltageLevel)
    requires
        m.wf(),
    ensures
        m.do_set_level(pin, level).wf(),
        m.do_set_level(pin, level).is_high(pin.spec_bcm()) == level.spec_is_high(),
        forall|q: u8|
            spec_valid_bcm(q) && q != pin.spec_bcm() ==> #[trigger] m.do_set_level(
                pin,
                level,
            ).is_high(q) == m.is_high(q),
        forall|q: u8|
            spec_valid_bcm(q) ==> #[trigger] m.do_set_level(pin, level).fsel_code(q) == m.fsel_code(
                q,
            ),
        forall|j: int|
            0 <= j < GPIO_REGISTER_COUNT && j != GPLEV0 + pin.spec_bcm() / 32
                ==> #[trigger] m.do_set_level(pin, level).regs[j] == m.regs[j],
        m.do_set_level(pin, level).trace == m.trace.push(GpioOp::SetLevel(pin, level)),
{
    let p = pin.spec_bcm();
    let m2 = m.do_set_level(pin, level);
    lemma_pin_arith(p);
    lemma_with_bit_same(
        m.regs[GPLEV0 + (p / 32) as int],
        (p % 32) as u32,
        level.spec_is_high(),
    );
    assert forall|q: u8| spec_valid_bcm(q) && q != p implies m2.is_high(q) == m.is_high(q) by {
        lemma_pin_arith(q);
        lemma_distinct_pins_distinct_bits(p, q);
        if q / 32 == p / 32 {
            lemma_with_bit_other(
                m.regs[GPLEV0 + (p / 32) as int],
                (p % 32) as u32,
                level.spec_is_high(),
                (q % 32) as u32,
            );
        }
    }
    assert forall|q: u8| spec_valid_bcm(q) implies m2.fsel_code(q) == m.fsel_code(q) by {
        lemma_pin_arith(q);
    }
}

/// Set/clear isolation: driving pin `p` High and then a different pin `q`
/// Low leaves `p` reading High.
pub proof fn lemma_set_level_isolation(m: GpioModel, p: SaksPins, q: SaksPins)
    requires
        m.wf(),
        p.spec_bcm() != q.spec_bcm(),
    ensures
        m.do_set_level(p, VoltageLevel::High).do_set_level(q, VoltageLevel::Low).is_high(
            p.spec_bcm(),
        ),
{
    let mid = m.do_set_level(p, VoltageLevel::High);
    lemma_set_level_effect(m, p, VoltageLevel::High);
    lemma_set_level_effect(mid, q, VoltageLevel::Low);
    assert(spec_valid_bcm(p.spec_bcm()));
    assert(mid.is_high(p.spec_bcm()));
    assert(mid.do_set_level(q, VoltageLevel::Low).is_high(p.spec_bcm()) == mid.is_high(
        p.spec_bcm(),
    ));
}

/// Last write wins: driving a pin High and immediately Low leaves it
/// reading Low, consistent with the set/clear register semantics.
pub proof fn lemma_set_level_last_write_wins(m: GpioModel, p: SaksPins)
    requires
        m.wf(),
    ensures
        !m.do_set_level(p, VoltageLevel::High).do_set_level(p, VoltageLevel::Low).is_high(
            p.spec_bcm(),
        ),
{
    lemma_set_level_effect(m, p, VoltageLevel::High);
    lemma_set_level_effect(m.do_set_level(p, VoltageLevel::High), p, VoltageLevel::Low);
}

/// Length, in milliseconds, of one settling pause of the display
/// protocol. The attached controller is far slower than the host and
/// needs this much time to sample a level; shortening it is a
/// correctness regression, not a performance change.
pub const DELAY_UNIT_MILLIS: u64 = 1;

/// Whether `q` is the BCM number of one of the six controlled pins.
pub open spec fn spec_is_shield_bcm(q: u8) -> bool {
    ||| q == SaksPins::Buzzer.spec_bcm()
    ||| q == SaksPins::Ds.spec_bcm()
    ||| q == SaksPins::Stcp.spec_bcm()
    ||| q == SaksPins::Shcp.spec_bcm()
    ||| q == SaksPins::Di.spec_bcm()
    ||| q == SaksPins::Clk.spec_bcm()
}

/// The operations a fresh interface issues: every controlled pin is
/// selected as Output before any level is driven.
pub open spec fn init_trace() -> Seq<GpioOp> {
    seq![
        GpioOp::SetFunction(SaksPins::Buzzer, PinMode::Output),
        GpioOp::SetFunction(SaksPins::Ds, PinMode::Output),
        GpioOp::SetFunction(SaksPins::Stcp, PinMode::Output),
        GpioOp::SetFunction(SaksPins::Shcp, PinMode::Output),
        GpioOp::SetFunction(SaksPins::Di, PinMode::Output),
        GpioOp::SetFunction(SaksPins::Clk, PinMode::Output),
    ]
}

/// The operations teardown issues: every controlled pin is driven to its
/// safe idle level, the active-low buzzer last and High.
pub open spec fn close_trace() -> Seq<GpioOp> {
    seq![
        GpioOp::SetLevel(SaksPins::Ds, VoltageLevel::Low),
        GpioOp::SetLevel(SaksPins::Stcp, VoltageLevel::Low),
        GpioOp::SetLevel(SaksPins::Shcp, VoltageLevel::Low),
        GpioOp::SetLevel(SaksPins::Di, VoltageLevel::Low),
        GpioOp::SetLevel(SaksPins::Clk, VoltageLevel::Low),
        GpioOp::SetLevel(SaksPins::Buzzer, VoltageLevel::High),
    ]
}

/// State of a freshly constructed interface: every controlled pin
/// selected as Output, every other pin still Input, no pin reading High,
/// and the trace holding exactly the initialization operations.
pub open spec fn spec_fresh(m: GpioModel) -> bool {
    &&& m.wf()
    &&& forall|p: SaksPins| #[trigger] m.fsel_code(p.spec_bcm()) == PinMode::Output.spec_code()
    &&& forall|q: u8|
        spec_valid_bcm(q) && !spec_is_shield_bcm(q) ==> #[trigger] m.fsel_code(q)
            == PinMode::Input.spec_code()
    &&& forall|q: u8| spec_valid_bcm(q) ==> !#[trigger] m.is_high(q)
    &&& m.trace == init_trace()
}

/// The register interface of the shield: the modelled register block and
/// the trace of issued operations.
///
/// At most one instance should be open at a time per process; the
/// instance has exclusive, unsynchronized access to its block, and
/// callers on several threads must add their own mutual exclusion.
pub struct Saks {
    regs: Vec<u32>,
    trace: Vec<GpioOp>,
}

impl View for Saks {
    type V = GpioModel;

    closed spec fn view(&self) -> GpioModel {
        GpioModel { regs: self.regs@, trace: self.trace@ }
    }
}

impl Saks {
    /// Constructs the interface over a zeroed register block and selects
    /// every controlled pin as Output.
    ///
    /// Acquiring the real mapped block, and refusing to run on
    /// unsupported hardware, is the unverified shim's duty; the shim
    /// replays this instance's trace against the mapping it acquired.
    pub fn new() -> (s: Saks)
        ensures
            spec_fresh(s@),
    {
        let mut regs: Vec<u32> = Vec::new();
        let mut i: usize = 0;
        while i < GPIO_REGISTER_COUNT
            invariant
                i <= GPIO_REGISTER_COUNT,
                regs@.len() == i,
                forall|j: int| 0 <= j < i ==> regs@[j] == 0u32,
            decreases GPIO_REGISTER_COUNT - i,
        {
            regs.push(0);
            i = i + 1;
        }
        let mut s = Saks { regs, trace: Vec::new() };
        proof {
            assert forall|q: u8| spec_valid_bcm(q) implies s@.fsel_code(q) == 0u32 by {
                lemma_pin_arith(q);
                lemma_fsel_field_of_zero((q % 10) as u32);
            }
            assert forall|q: u8| spec_valid_bcm(q) implies !s@.is_high(q) by {
                lemma_pin_arith(q);
                lemma_bit_of_zero((q % 32) as u32);
            }
        }
        s.init_pins();
        s
    }

    /// Selects every controlled pin as Output; runs once, before any
    /// level is driven.
    fn init_pins(&mut self)
        requires
            old(self)@.wf(),
        ensures
            final(self)@.wf(),
            forall|p: SaksPins| #[trigger]
                final(self)@.fsel_code(p.spec_bcm()) == PinMode::Output.spec_code(),
            forall|q: u8|
                spec_valid_bcm(q) && !spec_is_shield_bcm(q) ==> #[trigger] final(self)@.fsel_code(q)
                    == old(self)@.fsel_code(q),
            forall|q: u8|
                spec_valid_bcm(q) ==> #[trigger] final(self)@.is_high(q) == old(self)@.is_high(q),
            final(self)@.trace == old(self)@.trace + init_trace(),
    {
        let ghost m0 = self@;
        self.set_mode(SaksPins::Buzzer, PinMode::Output);
        let ghost m1 = self@;
        self.set_mode(SaksPins::Ds, PinMode::Output);
        let ghost m2 = self@;
        self.set_mode(SaksPins::Stcp, PinMode::Output);
        let ghost m3 = self@;
        self.set_mode(SaksPins::Shcp, PinMode::Output);
        let ghost m4 = self@;
        self.set_mode(SaksPins::Di, PinMode::Output);
        let ghost m5 = self@;
        self.set_mode(SaksPins::Clk, PinMode::Output);
        proof {
            lemma_set_function_effect(m0, SaksPins::Buzzer, PinMode::Output);
            lemma_set_function_effect(m1, SaksPins::Ds, PinMode::Output);
            lemma_set_function_effect(m2, SaksPins::Stcp, PinMode::Output);
            lemma_set_function_effect(m3, SaksPins::Shcp, PinMode::Output);
            lemma_set_function_effect(m4, SaksPins::Di, PinMode::Output);
            lemma_set_function_effect(m5, SaksPins::Clk, PinMode::Output);
            assert(m1.fsel_code(12) == PinMode::Output.spec_code());
            assert(m2.fsel_code(12) == m1.fsel_code(12));
            assert(m3.fsel_code(12) == m2.fsel_code(12));
            assert(m4.fsel_code(12) == m3.fsel_code(12));
            assert(m5.fsel_code(12) == m4.fsel_code(12));
            assert(self@.fsel_code(12) == m5.fsel_code(12));
            assert(m2.fsel_code(6) == PinMode::Output.spec_code());
            assert(m3.fsel_code(6) == m2.fsel_code(6));
            assert(m4.fsel_code(6) == m3.fsel_code(6));
            assert(m5.fsel_code(6) == m4.fsel_code(6));
            assert(self@.fsel_code(6) == m5.fsel_code(6));
            assert(m3.fsel_code(13) == PinMode::Output.spec_code());
            assert(m4.fsel_code(13) == m3.fsel_code(13));
            assert(m5.fsel_code(13) == m4.fsel_code(13));
            assert(self@.fsel_code(13) == m5.fsel_code(13));
            assert(m4.fsel_code(19) == PinMode::Output.spec_code());
            assert(m5.fsel_code(19) == m4.fsel_code(19));
            assert(self@.fsel_code(19) == m5.fsel_code(19));
            assert(m5.fsel_code(25) == PinMode::Output.spec_code());
            assert(self@.fsel_code(25) == m5.fsel_code(25));
            assert(self@.fsel_code(5) == PinMode::Output.spec_code());
            assert forall|p: SaksPins| #[trigger]
                self@.fsel_code(p.spec_bcm()) == PinMode::Output.spec_code() by {
                match p {
                    SaksPins::Buzzer => {},
                    SaksPins::Ds => {},
                    SaksPins::Stcp => {},
                    SaksPins::Shcp => {},
                    SaksPins::Di => {},
                    SaksPins::Clk => {},
                }
            }
            assert(final(self)@.trace =~= m0.trace + init_trace());
        }
    }

    /// Selects the function of `pin`: a read-modify-write on the whole
    /// function-select register that replaces exactly the pin's 3-bit
    /// field and preserves every other pin's field bit-for-bit.
    pub fn set_mode(&mut self, pin: SaksPins, mode: PinMode)
        requires
            old(self)@.wf(),
        ensures
            final(self)@ == old(self)@.do_set_function(pin, mode),
            final(self)@.wf(),
            final(self)@.fsel_code(pin.spec_bcm()) == mode.spec_code(),
            forall|q: u8|
                spec_valid_bcm(q) && q != pin.spec_bcm() ==> #[trigger] final(self)@.fsel_code(q)
                    == old(self)@.fsel_code(q),
            forall|q: u8|
                spec_valid_bcm(q) ==> #[trigger] final(self)@.is_high(q) == old(self)@.is_high(q),
            final(self)@.trace == old(self)@.trace.push(GpioOp::SetFunction(pin, mode)),
    {
        proof {
            lemma_set_function_effect(old(self)@, pin, mode);
        }
        let idx = fsel_index(pin);
        let cur = self.regs[idx];
        let nv = fsel_update(cur, pin, mode);
        self.regs.set(idx, nv);
        self.trace.push(GpioOp::SetFunction(pin, mode));
    }

    /// Drives `pin` to `level` through the set register (High) or the
    /// clear register (Low); the write carries a single one bit, so no
    /// other pin is affected.
    pub fn set_level(&mut self, pin: SaksPins, level: VoltageLevel)
        requires
            old(self)@.wf(),
        ensures
            final(self)@ == old(self)@.do_set_level(pin, level),
            final(self)@.wf(),
            final(self)@.is_high(pin.spec_bcm()) == level.spec_is_high(),
            forall|q: u8|
                spec_valid_bcm(q) && q != pin.spec_bcm() ==> #[trigger] final(self)@.is_high(q)
                    == old(self)@.is_high(q),
            forall|q: u8|
                spec_valid_bcm(q) ==> #[trigger] final(self)@.fsel_code(q) == old(
                    self,
                )@.fsel_code(q),
            final(self)@.trace == old(self)@.trace.push(GpioOp::SetLevel(pin, level)),
    {
        self.set_is_high_level(pin, level.is_high());
    }

    /// Same as `set_level`, taking the level as a plain boolean:
    /// `true` drives High, `false` drives Low.
    pub fn set_is_high_level(&mut self, pin: SaksPins, is_high_level: bool)
        requires
            old(self)@.wf(),
        ensures
            final(self)@ == old(self)@.do_set_level(pin, spec_level_of_bit(is_high_level)),
            final(self)@.wf(),
            final(self)@.is_high(pin.spec_bcm()) == is_high_level,
            forall|q: u8|
                spec_valid_bcm(q) && q != pin.spec_bcm() ==> #[trigger] final(self)@.is_high(q)
                    == old(self)@.is_high(q),
            forall|q: u8|
                spec_valid_bcm(q) ==> #[trigger] final(self)@.fsel_code(q) == old(
                    self,
                )@.fsel_code(q),
            final(self)@.trace == old(self)@.trace.push(
                GpioOp::SetLevel(pin, spec_level_of_bit(is_high_level)),
            ),
    {
        proof {
            lemma_set_level_effect(old(self)@, pin, spec_level_of_bit(is_high_level));
        }
        let level = VoltageLevel::of_bit(is_high_level);
        let mask = pin_bit_mask(pin);
        let lev_idx = level_read_index(pin);
        let cur = self.regs[lev_idx];
        let nv = if is_high_level {
            cur | mask
        } else {
            cur & !mask
        };
        self.regs.set(lev_idx, nv);
        self.trace.push(GpioOp::SetLevel(pin, level));
    }

    /// Reads the current level of `pin` from the level register word.
    ///
    /// The model reports the level this interface last drove; real input
    /// sampling belongs to the hardware mapping, which the shim owns.
    pub fn get_level(&self, pin: SaksPins) -> (level: VoltageLevel)
        requires
            self@.wf(),
        ensures
            level == spec_level_of_bit(self@.is_high(pin.spec_bcm())),
    {
        let idx = level_read_index(pin);
        let mask = pin_bit_mask(pin);
        if self.regs[idx] & mask == 0 {
            VoltageLevel::Low
        } else {
            VoltageLevel::High
        }
    }

    /// The current value of register word `i` of the modelled block.
    pub fn register(&self, i: usize) -> (v: u32)
        requires
            self@.wf(),
            i < GPIO_REGISTER_COUNT,
        ensures
            v == self@.regs[i as int],
    {
        self.regs[i]
    }

    /// Records one settling pause in the trace.
    ///
    /// The display controller samples levels at specific points rather
    /// than purely on edges, so a fixed pause after every level change is
    /// part of the protocol's functional contract, not a performance
    /// knob. The shim performs the real pause, `DELAY_UNIT_MILLIS` long,
    /// when it replays the trace.
    pub fn i2c_bus_delay(&mut self)
        requires
            old(self)@.wf(),
        ensures
            final(self)@ == old(self)@.do_delay(),
            final(self)@.wf(),
    {
        self.trace.push(GpioOp::Delay);
    }

    /// Hands out the operations issued since construction or since the
    /// last call, leaving the trace empty; the registers are untouched.
    pub fn take_trace(&mut self) -> (ops: Vec<GpioOp>)
        ensures
            ops@ == old(self)@.trace,
            final(self)@.trace == Seq::<GpioOp>::empty(),
            final(self)@.regs == old(self)@.regs,
    {
        let mut ops: Vec<GpioOp> = Vec::new();
        core::mem::swap(&mut self.trace, &mut ops);
        ops
    }

    /// Tears the interface down: drives every controlled output pin to
    /// its electrically safe idle level, the active-low buzzer High
    /// (silent) and every other pin Low.
    ///
    /// Calling it again is a safe no-op for pin state: it re-issues the
    /// same idle-driving writes, and the resulting levels are the same
    /// whatever the state before the call. Releasing the real mapping,
    /// exactly once, is the shim's duty after replaying the trace.
    pub fn close(&mut self)
        requires
            old(self)@.wf(),
        ensures
            final(self)@.wf(),
            forall|p: SaksPins| #[trigger]
                final(self)@.is_high(p.spec_bcm()) == p.spec_idle_is_high(),
            forall|q: u8|
                spec_valid_bcm(q) && !spec_is_shield_bcm(q) ==> #[trigger] final(self)@.is_high(q)
                    == old(self)@.is_high(q),
            forall|q: u8|
                spec_valid_bcm(q) ==> #[trigger] final(self)@.fsel_code(q) == old(
                    self,
                )@.fsel_code(q),
            final(self)@.trace == old(self)@.trace + close_trace(),
    {
        let ghost m0 = self@;
        self.set_level(SaksPins::Ds, VoltageLevel::Low);
        let ghost m1 = self@;
        self.set_level(SaksPins::Stcp, VoltageLevel::Low);
        let ghost m2 = self@;
        self.set_level(SaksPins::Shcp, VoltageLevel::Low);
        let ghost m3 = self@;
        self.set_level(SaksPins::Di, VoltageLevel::Low);
        let ghost m4 = self@;
        self.set_level(SaksPins::Clk, VoltageLevel::Low);
        let ghost m5 = self@;
        self.set_level(SaksPins::Buzzer, VoltageLevel::High);
        proof {
            lemma_set_level_effect(m0, SaksPins::Ds, VoltageLevel::Low);
            lemma_set_level_effect(m1, SaksPins::Stcp, VoltageLevel::Low);
            lemma_set_level_effect(m2, SaksPins::Shcp, VoltageLevel::Low);
            lemma_set_level_effect(m3, SaksPins::Di, VoltageLevel::Low);
            lemma_set_level_effect(m4, SaksPins::Clk, VoltageLevel::Low);
            lemma_set_level_effect(m5, SaksPins::Buzzer, VoltageLevel::High);
            assert(!m1.is_high(6));
            assert(m2.is_high(6) == m1.is_high(6));
            assert(m3.is_high(6) == m2.is_high(6));
            assert(m4.is_high(6) == m3.is_high(6));
            assert(m5.is_high(6) == m4.is_high(6));
            assert(self@.is_high(6) == m5.is_high(6));
            assert(!m2.is_high(13));
            assert(m3.is_high(13) == m2.is_high(13));
            assert(m4.is_high(13) == m3.is_high(13));
            assert(m5.is_high(13) == m4.is_high(13));
            assert(self@.is_high(13) == m5.is_high(13));
            assert(!m3.is_high(19));
            assert(m4.is_high(19) == m3.is_high(19));
            assert(m5.is_high(19) == m4.is_high(19));
            assert(self@.is_high(19) == m5.is_high(19));
            assert(!m4.is_high(25));
            assert(m5.is_high(25) == m4.is_high(25));
            assert(self@.is_high(25) == m5.is_high(25));
            assert(!m5.is_high(5));
            assert(self@.is_high(5) == m5.is_high(5));
            assert(self@.is_high(12));
            assert forall|p: SaksPins| #[trigger]
                self@.is_high(p.spec_bcm()) == p.spec_idle_is_high() by {
                match p {
                    SaksPins::Buzzer => {},
                    SaksPins::Ds => {},
                    SaksPins::Stcp => {},
                    SaksPins::Shcp => {},
                    SaksPins::Di => {},
                    SaksPins::Clk => {},
                }
            }
            assert(final(self)@.trace =~= m0.trace + close_trace());
        }
    }
}

impl Default for Saks {
    /// Same as `new`.
    fn default() -> (s: Self)
        ensures
            spec_fresh(s@),
    {
        Saks::new()
    }
}

} // verus!
