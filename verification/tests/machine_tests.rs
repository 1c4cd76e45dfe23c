use ceres_pc1500::display::{Symbol, RGBA_SIZE};
use ceres_pc1500::keyboard::Key;
use ceres_pc1500::lh5801::CpuFault;
use ceres_pc1500::lh5_loader::Lh5LoadError;
use ceres_pc1500::Pc1500;

/// A ROM image whose reset vector points at 0xC000, with `program` there.
fn rom_with(program: &[u8]) -> Vec<u8> {
    let mut rom = vec![0u8; 0x4000];
    rom[..program.len()].copy_from_slice(program);
    rom[0x3FFE] = 0xC0;
    rom[0x3FFF] = 0x00;
    rom
}

fn machine(program: &[u8]) -> Pc1500 {
    Pc1500::new(rom_with(program), &Vec::new())
}

#[test]
fn reset_jumps_through_the_reset_vector() {
    let mut pc = machine(&[0x38, 0x38]);
    pc.step_cpu().unwrap();
    // The reset consumed, then the NOP at 0xC000 ran.
    assert_eq!(pc.cpu().p(), 0xC001);
    assert_eq!(pc.cpu().s(), 0x1000);
    assert_eq!(pc.cpu().get_ticks(), 5);
}

#[test]
fn load_immediate_and_store() {
    // LDI A,0x42 ; STA (0x4000) ; AEX ; NOP
    let mut pc = machine(&[0xB5, 0x42, 0xAE, 0x40, 0x00, 0xF1, 0x38]);
    pc.step_cpu().unwrap();
    assert_eq!(pc.cpu().a(), 0x42);
    pc.step_cpu().unwrap();
    assert_eq!(pc.read_byte(0x4000), 0x42);
    pc.step_cpu().unwrap();
    assert_eq!(pc.cpu().a(), 0x24);
    assert_eq!(pc.cpu().p(), 0xC006);
}

#[test]
fn illegal_opcode_is_reported_with_its_address() {
    let mut pc = machine(&[0x38, 0x31]);
    pc.step_cpu().unwrap();
    assert_eq!(pc.step_cpu(), Err(CpuFault::IllegalOpcode { op: 0x31, pc: 0xC001 }));
}

#[test]
fn illegal_fd_opcode_is_reported() {
    let mut pc = machine(&[0xFD, 0x00]);
    assert_eq!(pc.step_cpu(), Err(CpuFault::IllegalFdOpcode { op: 0x00, pc: 0xC002 }));
}

#[test]
fn ram_reads_back_and_rom_ignores_writes() {
    let mut pc = machine(&[0x38]);
    pc.write_byte(0x4123, 0x5A);
    assert_eq!(pc.read_byte(0x4123), 0x5A);
    pc.write_byte(0x7650, 0x11);
    assert_eq!(pc.read_byte(0x7650), 0x11);
    // The 0x7000 window mirrors 0x7600.
    assert_eq!(pc.read_byte(0x7050), 0x11);
    pc.write_byte(0xC000, 0x99);
    assert_eq!(pc.read_byte(0xC000), 0x38);
    // Nothing is mapped at 0x2000.
    assert_eq!(pc.read_byte(0x2000), 0xFF);
}

#[test]
fn lh5810_registers_through_me1() {
    let mut pc = machine(&[0x38]);
    pc.write_byte(0x1F005, 0x3C);
    assert_eq!(pc.read_byte(0x1F005), 0x3C);
}

#[test]
fn power_on_memory_holds_the_preloaded_program() {
    let program = vec![1u8, 2, 3];
    let pc = Pc1500::new(rom_with(&[0x38]), &program);
    assert_eq!(pc.read_byte(0x40C5), 1);
    assert_eq!(pc.read_byte(0x40C7), 3);
    assert_eq!(pc.read_byte(0x7861), 0x40);
    assert_eq!(pc.read_byte(0x7862), 0xC5);
    assert_eq!(pc.read_byte(0x7867), 0x40);
    assert_eq!(pc.read_byte(0x7868), 0xC8);
    assert_eq!(pc.read_byte(0x7700), 0xFF);
}

#[test]
fn step_frame_runs_at_least_a_frame_of_cycles() {
    // An endless loop: BCH -2 (0x9E back over itself).
    let mut pc = machine(&[0x9E, 0x02]);
    pc.step_frame().unwrap();
    assert!(pc.cpu().get_ticks() >= 15000);
    assert!(pc.cpu().get_ticks() < 15000 + 40);
    assert_eq!(pc.frame_deadline(), 30000);
    // The next frame ends exactly one frame length later: its share is
    // shortened by the previous overrun.
    pc.step_frame().unwrap();
    assert!(pc.cpu().get_ticks() >= 30000);
    assert!(pc.cpu().get_ticks() < 30000 + 40);
    assert_eq!(pc.frame_deadline(), 45000);
}

#[test]
fn display_off_blanks_the_frame() {
    let mut pc = machine(&[0x38]);
    let d = pc.display();
    assert_eq!(d.rgba_buffer().len(), RGBA_SIZE);
    assert!(d.rgba_buffer().iter().all(|&b| b == 0xFF));
}

#[test]
fn display_on_renders_dots_and_symbols() {
    // SDP (FD C1) turns the display on.
    let mut pc = machine(&[0xFD, 0xC1]);
    pc.step_cpu().unwrap();
    pc.write_byte(0x7600, 0x01);
    // Column 1 reads 0x7602/0x7603, which power on as 0xFF: clear them.
    pc.write_byte(0x7602, 0x00);
    pc.write_byte(0x7603, 0x00);
    pc.write_byte(0x764E, 0xFE);
    let d = pc.display();
    // Column 0 row 0 is on: black.
    assert_eq!(&d.rgba_buffer()[0..4], &[0, 0, 0, 255]);
    // Column 1 row 0 is off: white.
    assert_eq!(&d.rgba_buffer()[4..8], &[255, 255, 255, 255]);
    assert!(d.is_symbol_on(Symbol::Busy));
    assert!(!d.is_symbol_on(Symbol::Shift));
    assert!(d.is_symbol_on(Symbol::Battery));
}

#[test]
fn keyboard_reads_through_ita() {
    let mut pc = machine(&[0x38]);
    pc.press(Key::Two);
    pc.keyboard.set_ks(0x01);
    assert_eq!(pc.keyboard.input(), 0xFE);
    pc.release(Key::Two);
    assert_eq!(pc.keyboard.input(), 0xFF);
}

#[test]
fn load_program_copies_and_points_p_at_it() {
    let mut pc = machine(&[0x38]);
    pc.step_cpu().unwrap();
    pc.load_program(0x4810, &vec![0xB5, 0x07]).unwrap();
    assert_eq!(pc.cpu().p(), 0x4810);
    // The code lands at its load address.
    assert_eq!(pc.read_byte(0x4810), 0xB5);
    assert_eq!(pc.read_byte(0x4811), 0x07);
    assert!(matches!(pc.load_program(0x1000, &vec![1]), Err(Lh5LoadError::InvalidLoadAddress)));
    assert!(matches!(pc.load_program(0x5FFF, &vec![1, 2]), Err(Lh5LoadError::CodeTooLarge)));
    // A valid range outside RAM is accepted; P still points at it.
    pc.load_program(0x3800, &vec![0x38]).unwrap();
    assert_eq!(pc.cpu().p(), 0x3800);
}

#[test]
fn call_then_return_comes_back_after_the_call() {
    // NOP ; SJP 0xC010 ; ... ; at 0xC010: RTN
    let mut program = vec![0x38, 0xBE, 0xC0, 0x10];
    program.resize(0x10, 0x38);
    program.push(0x9A);
    let mut pc = machine(&program);
    pc.step_cpu().unwrap();
    pc.lh5801.s = 0x47F0;
    pc.step_cpu().unwrap();
    assert_eq!(pc.cpu().p(), 0xC010);
    assert_eq!(pc.cpu().s(), 0x47EE);
    pc.step_cpu().unwrap();
    assert_eq!(pc.cpu().p(), 0xC004);
    assert_eq!(pc.cpu().s(), 0x47F0);
}

#[test]
fn decimal_add_refuses_an_accumulator_above_99() {
    // LDI A,0x9A ; DCA (X)
    let mut pc = machine(&[0xB5, 0x9A, 0x8C]);
    pc.step_cpu().unwrap();
    assert_eq!(pc.step_cpu(), Err(CpuFault::DecimalOverflow));
    // With A = 0x99 the same instruction completes.
    let mut pc = machine(&[0xB5, 0x99, 0x8C]);
    pc.step_cpu().unwrap();
    assert_eq!(pc.step_cpu(), Ok(()));
}
