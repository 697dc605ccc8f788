//! Behavior of the register interface: construction, function select,
//! level writes and read-back, and teardown.

use saks::gpio::{GpioOp, Saks};
use saks::pins::{PinMode, SaksPins, VoltageLevel};
use saks::registers::{fsel_index, fsel_update, level_read_index, level_write_index, pin_bit_mask};

#[test]
fn bcm_numbers() {
    assert_eq!(SaksPins::Buzzer.bcm(), 12);
    assert_eq!(SaksPins::Ds.bcm(), 6);
    assert_eq!(SaksPins::Stcp.bcm(), 13);
    assert_eq!(SaksPins::Shcp.bcm(), 19);
    assert_eq!(SaksPins::Di.bcm(), 25);
    assert_eq!(SaksPins::Clk.bcm(), 5);
}

#[test]
fn level_negation() {
    assert_eq!(!VoltageLevel::Low, VoltageLevel::High);
    assert_eq!(!VoltageLevel::High, VoltageLevel::Low);
}

#[test]
fn register_arithmetic_helpers() {
    // Buzzer is BCM 12: function-select register 1, slot 2 (bits 6..9).
    assert_eq!(fsel_index(SaksPins::Buzzer), 1);
    assert_eq!(fsel_update(0, SaksPins::Buzzer, PinMode::Output), 1 << 6);
    assert_eq!(
        fsel_update(0xffff_ffff, SaksPins::Buzzer, PinMode::Input),
        0xffff_ffff & !(0b111 << 6)
    );
    // Ds is BCM 6: set word 7, clear word 10, level word 13, bit 6.
    assert_eq!(level_write_index(SaksPins::Ds, true), 7);
    assert_eq!(level_write_index(SaksPins::Ds, false), 10);
    assert_eq!(level_read_index(SaksPins::Ds), 13);
    assert_eq!(pin_bit_mask(SaksPins::Ds), 1 << 6);
}

#[test]
fn fresh_interface_selects_outputs_and_drives_nothing() {
    let mut s = Saks::new();
    // Clk (BCM 5) at slot 5 and Ds (BCM 6) at slot 6 of register 0.
    assert_eq!(s.register(0), (1 << 15) | (1 << 18));
    // Buzzer (12) slot 2, Stcp (13) slot 3, Shcp (19) slot 9 of register 1.
    assert_eq!(s.register(1), (1 << 6) | (1 << 9) | (1 << 27));
    // Di (25) at slot 5 of register 2.
    assert_eq!(s.register(2), 1 << 15);
    // No pin is driven: both level words are clear.
    assert_eq!(s.register(13), 0);
    assert_eq!(s.register(14), 0);
    for pin in [
        SaksPins::Buzzer,
        SaksPins::Ds,
        SaksPins::Stcp,
        SaksPins::Shcp,
        SaksPins::Di,
        SaksPins::Clk,
    ] {
        assert_eq!(s.get_level(pin), VoltageLevel::Low);
    }
    // The trace holds exactly the six function selects, in order.
    let ops = s.take_trace();
    let expected = vec![
        GpioOp::SetFunction(SaksPins::Buzzer, PinMode::Output),
        GpioOp::SetFunction(SaksPins::Ds, PinMode::Output),
        GpioOp::SetFunction(SaksPins::Stcp, PinMode::Output),
        GpioOp::SetFunction(SaksPins::Shcp, PinMode::Output),
        GpioOp::SetFunction(SaksPins::Di, PinMode::Output),
        GpioOp::SetFunction(SaksPins::Clk, PinMode::Output),
    ];
    assert_eq!(ops, expected);
}

#[test]
fn set_function_round_trip_and_non_interference() {
    let mut s = Saks::new();
    let before = s.register(1);
    // Flip the Buzzer (register 1, bits 6..9) to Input and read the field back.
    s.set_mode(SaksPins::Buzzer, PinMode::Input);
    let after = s.register(1);
    assert_eq!((after >> 6) & 0b111, 0);
    // Every other pin's field in the same register is byte-identical.
    assert_eq!(after & !(0b111 << 6), before & !(0b111 << 6));
    // Restoring Output restores the register exactly.
    s.set_mode(SaksPins::Buzzer, PinMode::Output);
    assert_eq!(s.register(1), before);
}

#[test]
fn set_level_lands_in_level_word_only() {
    let mut s = Saks::new();
    let fsel0 = s.register(0);
    let fsel1 = s.register(1);
    s.set_level(SaksPins::Ds, VoltageLevel::High);
    assert_eq!(s.register(13), 1 << 6);
    s.set_level(SaksPins::Stcp, VoltageLevel::High);
    assert_eq!(s.register(13), (1 << 6) | (1 << 13));
    // Function-select registers are untouched; the set and clear words
    // are write-1-to-affect command ports and store nothing.
    assert_eq!(s.register(0), fsel0);
    assert_eq!(s.register(1), fsel1);
    assert_eq!(s.register(7), 0);
    assert_eq!(s.register(10), 0);
}

#[test]
fn write_one_to_affect_isolation() {
    let mut s = Saks::new();
    // Ds (6) and Stcp (13) share level word 0.
    s.set_level(SaksPins::Ds, VoltageLevel::High);
    s.set_level(SaksPins::Stcp, VoltageLevel::Low);
    assert_eq!(s.get_level(SaksPins::Ds), VoltageLevel::High);
    assert_eq!(s.get_level(SaksPins::Stcp), VoltageLevel::Low);
}

#[test]
fn last_write_wins() {
    let mut s = Saks::new();
    s.set_level(SaksPins::Shcp, VoltageLevel::High);
    s.set_level(SaksPins::Shcp, VoltageLevel::Low);
    assert_eq!(s.get_level(SaksPins::Shcp), VoltageLevel::Low);
    s.set_level(SaksPins::Shcp, VoltageLevel::Low);
    s.set_level(SaksPins::Shcp, VoltageLevel::High);
    assert_eq!(s.get_level(SaksPins::Shcp), VoltageLevel::High);
}

#[test]
fn set_is_high_level_is_the_boolean_form() {
    let mut s = Saks::new();
    s.set_is_high_level(SaksPins::Di, true);
    assert_eq!(s.get_level(SaksPins::Di), VoltageLevel::High);
    s.set_is_high_level(SaksPins::Di, false);
    assert_eq!(s.get_level(SaksPins::Di), VoltageLevel::Low);
}

#[test]
fn close_drives_safe_idle_levels() {
    let mut s = Saks::new();
    // Make some noise first: buzzer sounding (Low) and lines driven High.
    s.set_level(SaksPins::Buzzer, VoltageLevel::Low);
    s.set_level(SaksPins::Ds, VoltageLevel::High);
    s.set_level(SaksPins::Di, VoltageLevel::High);
    s.close();
    assert_eq!(s.get_level(SaksPins::Buzzer), VoltageLevel::High);
    assert_eq!(s.get_level(SaksPins::Ds), VoltageLevel::Low);
    assert_eq!(s.get_level(SaksPins::Stcp), VoltageLevel::Low);
    assert_eq!(s.get_level(SaksPins::Shcp), VoltageLevel::Low);
    assert_eq!(s.get_level(SaksPins::Di), VoltageLevel::Low);
    assert_eq!(s.get_level(SaksPins::Clk), VoltageLevel::Low);
}

#[test]
fn second_close_is_a_safe_no_op() {
    let mut s = Saks::new();
    s.set_level(SaksPins::Buzzer, VoltageLevel::Low);
    s.close();
    let _ = s.take_trace();
    // A second close re-issues the same idle-driving writes and leaves
    // the same levels.
    s.close();
    let ops = s.take_trace();
    let expected = vec![
        GpioOp::SetLevel(SaksPins::Ds, VoltageLevel::Low),
        GpioOp::SetLevel(SaksPins::Stcp, VoltageLevel::Low),
        GpioOp::SetLevel(SaksPins::Shcp, VoltageLevel::Low),
        GpioOp::SetLevel(SaksPins::Di, VoltageLevel::Low),
        GpioOp::SetLevel(SaksPins::Clk, VoltageLevel::Low),
        GpioOp::SetLevel(SaksPins::Buzzer, VoltageLevel::High),
    ];
    assert_eq!(ops, expected);
    assert_eq!(s.get_level(SaksPins::Buzzer), VoltageLevel::High);
    assert_eq!(s.get_level(SaksPins::Ds), VoltageLevel::Low);
}

#[test]
fn default_is_a_fresh_interface() {
    let mut s = Saks::default();
    assert_eq!(s.register(0), (1 << 15) | (1 << 18));
    assert_eq!(s.get_level(SaksPins::Buzzer), VoltageLevel::Low);
}

#[test]
fn take_trace_empties_the_trace_and_keeps_registers() {
    let mut s = Saks::new();
    let r0 = s.register(0);
    let first = s.take_trace();
    assert_eq!(first.len(), 6);
    let second = s.take_trace();
    assert!(second.is_empty());
    assert_eq!(s.register(0), r0);
}
