//! Trace-level behavior of the two bit-banged protocol drivers, checked
//! against the recorded operation sequence exactly as a recording stub
//! of the register interface would observe it.

use saks::gpio::{GpioOp, Saks, DELAY_UNIT_MILLIS};
use saks::pins::{SaksPins, VoltageLevel};

/// Replays `ops` over a pin simulator and returns, for each Low-to-High
/// transition of `clock`, the level of `data` at that moment, plus the
/// number of Low-to-High transitions of `latch`.
fn rising_edge_samples(
    ops: &[GpioOp],
    clock: SaksPins,
    data: SaksPins,
    latch: SaksPins,
) -> (Vec<bool>, usize) {
    let mut clock_high = false;
    let mut data_high = false;
    let mut latch_high = false;
    let mut samples = Vec::new();
    let mut latch_edges = 0;
    for op in ops {
        if let GpioOp::SetLevel(pin, level) = op {
            let high = *level == VoltageLevel::High;
            if *pin == clock {
                if high && !clock_high {
                    samples.push(data_high);
                }
                clock_high = high;
            } else if *pin == data {
                data_high = high;
            } else if *pin == latch {
                if high && !latch_high {
                    latch_edges += 1;
                }
                latch_high = high;
            }
        }
    }
    (samples, latch_edges)
}

fn bits_lsb_first(byte: u8) -> Vec<bool> {
    (0..8).map(|i| (byte >> i) & 1 == 1).collect()
}

#[test]
fn shift_register_trace() {
    let mut s = Saks::new();
    let _ = s.take_trace();
    s.led_row_write_a_byte(0b1011_0010);
    let ops = s.take_trace();
    assert_eq!(ops.len(), 26);
    // No delays: the shift register is clocked back to back.
    assert!(ops.iter().all(|op| !matches!(op, GpioOp::Delay)));
    let (samples, latch_edges) =
        rising_edge_samples(&ops, SaksPins::Shcp, SaksPins::Ds, SaksPins::Stcp);
    // Exactly 8 shift-clock rising edges, the data line at each equal to
    // bit i of the byte, least significant bit first, and exactly one
    // latch-clock rising edge.
    assert_eq!(samples, bits_lsb_first(0b1011_0010));
    assert_eq!(latch_edges, 1);
}

#[test]
fn shift_register_write_is_idempotent() {
    let mut s = Saks::new();
    s.led_row_write_a_byte(0x5a);
    let _ = s.take_trace();
    let levels_first = (
        s.get_level(SaksPins::Ds),
        s.get_level(SaksPins::Shcp),
        s.get_level(SaksPins::Stcp),
    );
    s.led_row_write_a_byte(0x5a);
    let ops_second = s.take_trace();
    let levels_second = (
        s.get_level(SaksPins::Ds),
        s.get_level(SaksPins::Shcp),
        s.get_level(SaksPins::Stcp),
    );
    assert_eq!(levels_first, levels_second);
    assert_eq!(ops_second.len(), 26);
}

#[test]
fn display_start_condition_trace() {
    let mut s = Saks::new();
    let _ = s.take_trace();
    s.i2c_bus_start();
    let ops = s.take_trace();
    let expected = vec![
        GpioOp::SetLevel(SaksPins::Clk, VoltageLevel::High),
        GpioOp::SetLevel(SaksPins::Di, VoltageLevel::High),
        GpioOp::Delay,
        GpioOp::SetLevel(SaksPins::Di, VoltageLevel::Low),
        GpioOp::Delay,
        GpioOp::SetLevel(SaksPins::Clk, VoltageLevel::Low),
        GpioOp::Delay,
    ];
    assert_eq!(ops, expected);
}

#[test]
fn display_byte_write_trace() {
    let mut s = Saks::new();
    let _ = s.take_trace();
    s.i2c_bus_write_byte(0x44);
    let ops = s.take_trace();
    assert_eq!(ops.len(), 54);
    // Every level change is followed by a settling pause.
    for (k, op) in ops.iter().enumerate() {
        if matches!(op, GpioOp::SetLevel(..)) {
            assert!(matches!(ops[k + 1], GpioOp::Delay));
        }
    }
    let (samples, _) = rising_edge_samples(&ops, SaksPins::Clk, SaksPins::Di, SaksPins::Stcp);
    // 9 clock rising edges: 8 data bits, least significant first, then
    // the forced acknowledge pulse with the data line High.
    assert_eq!(samples.len(), 9);
    assert_eq!(samples[..8], bits_lsb_first(0x44)[..]);
    assert!(samples[8]);
}

#[test]
fn display_command_write_trace() {
    let mut s = Saks::new();
    let _ = s.take_trace();
    s.i2c_bus_start();
    let start_one = s.take_trace();
    s.i2c_bus_write_byte(0x8f);
    let byte_frame = s.take_trace();
    s.i2c_bus_start();
    let start_two = s.take_trace();
    s.i2c_bus_write_command(0x8f);
    let command_frame = s.take_trace();
    // The command frame is exactly start condition, byte write, start
    // condition — and no other level changes.
    let mut expected = start_one.clone();
    expected.extend(byte_frame.iter().copied());
    expected.extend(start_two.iter().copied());
    assert_eq!(command_frame, expected);
}

#[test]
fn display_delay_is_recorded_as_one_op() {
    let mut s = Saks::new();
    let _ = s.take_trace();
    s.i2c_bus_delay();
    let ops = s.take_trace();
    assert_eq!(ops, vec![GpioOp::Delay]);
    assert_eq!(DELAY_UNIT_MILLIS, 1);
}
