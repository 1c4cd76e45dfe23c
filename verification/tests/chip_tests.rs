use ceres_pc1500::keyboard::{Key, Keyboard};
use ceres_pc1500::lh5810::{Lh5810, Reg};
use ceres_pc1500::pd1990ac::{hex2bcd, put_bit, read_bit, ClockReading, Pd1990ac, FREQUENCY};

#[test]
fn hex2bcd_packs_decimal_digits() {
    assert_eq!(hex2bcd(0), 0x00);
    assert_eq!(hex2bcd(7), 0x07);
    assert_eq!(hex2bcd(42), 0x42);
    assert_eq!(hex2bcd(59), 0x59);
    assert_eq!(hex2bcd(123), 0x123);
}

#[test]
fn bits_put_and_read_back() {
    let mut v: u16 = 0;
    put_bit(&mut v, 3, true);
    assert_eq!(v, 0x08);
    assert!(read_bit(v, 3));
    put_bit(&mut v, 3, false);
    assert_eq!(v, 0);
    assert!(!read_bit(v, 3));
}

fn clock() -> ClockReading {
    ClockReading { second: 30, minute: 15, hour: 9, day: 24, weekday: 3, month: 12 }
}

#[test]
fn clock_chip_starts_from_the_reading_in_bcd() {
    let rtc = Pd1990ac::from_clock(clock());
    assert_eq!(rtc.seconds, 0x30);
    assert_eq!(rtc.minutes, 0x15);
    assert_eq!(rtc.hours, 0x09);
    assert_eq!(rtc.days, 0x24);
    assert_eq!(rtc.weekday, 0x03);
    assert_eq!(rtc.month, 12);
    assert!(!rtc.get_data());
}

#[test]
fn register_shift_outputs_seconds_bits() {
    let mut rtc = Pd1990ac::from_clock(clock());
    // Mode 1 (register shift): C0 high, strobe.
    rtc.set_c0(true);
    rtc.set_stb(true);
    assert!(rtc.step(10));
    rtc.set_stb(false);
    // Seconds 0x30: bits 0..3 are 0, bit 4 is 1.
    let mut bits = Vec::new();
    for i in 0..5 {
        rtc.set_clk(true);
        assert!(rtc.step(20 + 2 * i));
        bits.push(rtc.get_data());
        rtc.set_clk(false);
        assert!(rtc.step(21 + 2 * i));
    }
    assert_eq!(bits, vec![false, false, false, false, true]);
}

#[test]
fn time_set_shifts_data_in() {
    let mut rtc = Pd1990ac::from_clock(clock());
    // Mode 2 (time set): C1 high, strobe.
    rtc.set_c1(true);
    rtc.set_stb(true);
    assert!(rtc.step(10));
    rtc.set_stb(false);
    rtc.set_data(true);
    rtc.set_clk(true);
    assert!(rtc.step(12));
    // Bit 0 of the seconds was set.
    assert_eq!(rtc.seconds, 0x31);
}

#[test]
fn tp_toggles_every_half_period() {
    let mut rtc = Pd1990ac::from_clock(clock());
    assert!(!rtc.get_tp(1));
    assert!(!rtc.get_tp(1 + FREQUENCY / 2 - 1));
    assert!(rtc.get_tp(1 + FREQUENCY / 2));
    assert!(!rtc.get_tp(1 + FREQUENCY));
}

#[test]
fn lh5810_registers_read_back() {
    let mut io = Lh5810::new();
    io.set_reg(Reg::U, 0x12, 0);
    io.set_reg(Reg::G, 0x34, 0);
    io.set_reg(Reg::DDA, 0x56, 0);
    assert_eq!(io.get_reg(Reg::U), 0x12);
    assert_eq!(io.get_reg(Reg::G), 0x34);
    assert_eq!(io.get_reg(Reg::DDA), 0x56);
    // MSK keeps its low nibble only.
    io.set_reg(Reg::MSK, 0xFF, 0);
    assert_eq!(io.get_reg(Reg::MSK), 0x0F);
    // IF takes only its two low bits from the CPU.
    io.set_reg(Reg::IF, 0xFF, 0);
    assert_eq!(io.get_reg(Reg::IF), 0x03);
    // Writing OPC flags a new value for the clock chip.
    assert!(!io.new_opc());
    io.set_reg(Reg::OPC, 0x01, 0);
    assert!(io.new_opc());
    io.set_new_opc(false);
    assert!(!io.new_opc());
}

#[test]
fn lh5810_port_b_bits_and_interrupt() {
    let mut io = Lh5810::new();
    io.set_reg_bit(Reg::OPB, 7, true);
    assert_eq!(io.get_reg(Reg::OPB), 0x80);
    io.set_reg(Reg::MSK, 0x02, 0);
    io.step(0);
    // PB7 high with its mask bit set raises the interrupt line.
    assert!(io.int_signal());
    assert_eq!(io.get_reg(Reg::IF) & 0x02, 0x02);
}

#[test]
fn lh5810_serial_transmit_shifts_out() {
    let mut io = Lh5810::new();
    io.set_reg(Reg::G, 0x10, 0); // clock output on, rate divider 1
    io.set_reg(Reg::L, 0xA5, 0);
    io.step(0);
    assert_eq!(io.rol_reg, (0xff00u16 | 0xA5) << 1);
    io.step(1);
    assert_eq!(io.bit_count, 1);
    // The register shifts right once, with a 1 coming in at the top.
    assert_eq!(io.rol_reg, (0xFF4Au16 >> 1) | 0x8000);
}

#[test]
fn keyboard_rows_read_active_low() {
    let mut kb = Keyboard::new();
    kb.set_ks(0x01);
    assert_eq!(kb.input(), 0xFF);
    kb.press(Key::Two);
    kb.press(Key::Up);
    assert_eq!(kb.input(), 0x7E);
    // A key of another row does not show while only row 0 is strobed.
    kb.press(Key::Minus);
    assert_eq!(kb.input(), 0x7E);
    kb.set_ks(0x03);
    assert_eq!(kb.input(), 0x7C);
    kb.release(Key::Two);
    kb.release(Key::Up);
    kb.release(Key::Minus);
    assert_eq!(kb.input(), 0xFF);
}
