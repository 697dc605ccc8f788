//! The shield's named pins and the two small value enums of the driver.

use vstd::prelude::*;

verus! {

/// The six pins the shield driver controls, in BCM numbering.
#[derive(Clone, Copy, PartialEq, Eq, Structural, Debug)]
pub enum SaksPins {
    /// Active buzzer; it sounds while driven Low, so High is its idle level.
    Buzzer,
    /// 74HC595 shift register: serial data line.
    Ds,
    /// 74HC595 shift register: latch clock (storage register clock).
    Stcp,
    /// 74HC595 shift register: shift clock.
    Shcp,
    /// TM1637 display: data line.
    Di,
    /// TM1637 display: clock line.
    Clk,
}

/// Function a GPIO pin is selected for; a 3-bit field per pin in the
/// function-select registers, ten pins per register.
#[derive(Clone, Copy, PartialEq, Eq, Structural, Debug)]
pub enum PinMode {
    Input,
    Output,
}

/// Logic level of a pin, independent of the set/clear register encoding.
#[derive(Clone, Copy, PartialEq, Eq, Structural, Debug)]
pub enum VoltageLevel {
    Low,
    High,
}

impl SaksPins {
    /// The BCM pin number this shield pin is wired to.
    pub open spec fn spec_bcm(self) -> u8 {
        match self {
            SaksPins::Buzzer => 12,
            SaksPins::Ds => 6,
            SaksPins::Stcp => 13,
            SaksPins::Shcp => 19,
            SaksPins::Di => 25,
            SaksPins::Clk => 5,
        }
    }

    /// The electrically safe idle level of this pin: High for the
    /// active-low buzzer (which is silent at High), Low for every other
    /// pin.
    pub open spec fn spec_idle_is_high(self) -> bool {
        self == SaksPins::Buzzer
    }

    /// The BCM pin number this shield pin is wired to.
    pub fn bcm(self) -> (n: u8)
        ensures
            n == self.spec_bcm(),
    {
        match self {
            SaksPins::Buzzer => 12,
            SaksPins::Ds => 6,
            SaksPins::Stcp => 13,
            SaksPins::Shcp => 19,
            SaksPins::Di => 25,
            SaksPins::Clk => 5,
        }
    }
}

impl PinMode {
    /// The 3-bit function code written into a function-select field.
    pub open spec fn spec_code(self) -> u32 {
        match self {
            PinMode::Input => 0,
            PinMode::Output => 1,
        }
    }

    /// The 3-bit function code written into a function-select field.
    pub fn code(self) -> (c: u32)
        ensures
            c == self.spec_code(),
    {
        match self {
            PinMode::Input => 0,
            PinMode::Output => 1,
        }
    }
}

/// The level that stands for a data bit: High for a one bit, Low for a zero.
pub open spec fn spec_level_of_bit(b: bool) -> VoltageLevel {
    if b {
        VoltageLevel::High
    } else {
        VoltageLevel::Low
    }
}

impl VoltageLevel {
    /// Whether this level is High.
    pub open spec fn spec_is_high(self) -> bool {
        self == VoltageLevel::High
    }

    /// Whether this level is High.
    pub fn is_high(self) -> (b: bool)
        ensures
            b == self.spec_is_high(),
    {
        match self {
            VoltageLevel::Low => false,
            VoltageLevel::High => true,
        }
    }

    /// The opposite level: what `!` returns.
    pub open spec fn spec_toggled(self) -> VoltageLevel {
        match self {
            VoltageLevel::Low => VoltageLevel::High,
            VoltageLevel::High => VoltageLevel::Low,
        }
    }

    /// The level that stands for a data bit: High for a one bit.
    pub fn of_bit(b: bool) -> (l: VoltageLevel)
        ensures
            l == spec_level_of_bit(b),
    {
        if b {
            VoltageLevel::High
        } else {
            VoltageLevel::Low
        }
    }
}

impl core::ops::Not for VoltageLevel {
    type Output = VoltageLevel;

    /// The opposite level.
    fn not(self) -> VoltageLevel {
        match self {
            VoltageLevel::Low => VoltageLevel::High,
            VoltageLevel::High => VoltageLevel::Low,
        }
    }
}

impl vstd::std_specs::ops::NotSpecImpl for VoltageLevel {
    open spec fn obeys_not_spec() -> bool {
        true
    }

    open spec fn not_req(self) -> bool {
        true
    }

    open spec fn not_spec(self) -> VoltageLevel {
        self.spec_toggled()
    }
}

} // verus!
