use ceres_pc1500::pc1500::model::Pc1500Model;
use ceres_pc1500::pc1500::{Pc1500 as Machine, Pc1500Builder};
use ceres_pc1500::pc1500::cpu::Lh5801Cpu;
use ceres_pc1500::pc1500::memory::MemoryBus;

/// A bus whose ROM starts with `code` at 0xC000.
fn bus_with(code: &[u8]) -> MemoryBus {
    let mut rom = vec![0u8; 0x4000];
    rom[..code.len()].copy_from_slice(code);
    MemoryBus::new(rom)
}

fn cpu_at(p: u16) -> Lh5801Cpu {
    let mut cpu = Lh5801Cpu::new();
    cpu.set_pc(p);
    cpu
}

#[test]
fn step_loads_immediate_into_a() {
    // LDI A,0x42
    let mut bus = bus_with(&[0xB5, 0x42]);
    let mut cpu = cpu_at(0xC000);
    assert_eq!(cpu.step(&mut bus), 6);
    assert_eq!(cpu.a(), 0x42);
    assert_eq!(cpu.p(), 0xC002);
    assert_eq!(cpu.flags() & 0x01, 0);
}

#[test]
fn step_stores_a_through_x() {
    // LDI A,0x5A; LDI XH,0x40; LDI XL,0x10; STA (X)
    let mut bus = bus_with(&[0xB5, 0x5A, 0x48, 0x40, 0x4A, 0x10, 0x0E]);
    let mut cpu = cpu_at(0xC000);
    assert_eq!(cpu.step(&mut bus), 6);
    assert_eq!(cpu.step(&mut bus), 6);
    assert_eq!(cpu.step(&mut bus), 6);
    assert_eq!(cpu.x(), 0x4010);
    assert_eq!(cpu.step(&mut bus), 7);
    assert_eq!(bus.read_byte(0x4010), 0x5A);
    // RAM elsewhere still holds its power-on value.
    assert_eq!(bus.read_byte(0x4011), 0xFF);
}

#[test]
fn step_unknown_opcode_costs_five_and_only_moves_p() {
    let mut bus = bus_with(&[0x00]);
    let mut cpu = cpu_at(0xC000);
    cpu.set_a(0x33);
    assert_eq!(cpu.step(&mut bus), 5);
    assert_eq!(cpu.p(), 0xC001);
    assert_eq!(cpu.a(), 0x33);
}

#[test]
fn step_branch_taken_and_not_taken() {
    // BZS +4 with Z clear: not taken, 5 cycles.
    let mut bus = bus_with(&[0x8B, 0x04]);
    let mut cpu = cpu_at(0xC000);
    assert_eq!(cpu.step(&mut bus), 5);
    assert_eq!(cpu.p(), 0xC002);
    // With Z set: taken, 8 cycles, P moves by the displacement.
    let mut cpu = cpu_at(0xC000);
    cpu.set_zero_flag(true);
    assert_eq!(cpu.step(&mut bus), 8);
    assert_eq!(cpu.p(), 0xC006);
}

#[test]
fn step_fd_prefix_adr_and_push_pop() {
    // LDI A,0x10; FD CA (ADR X); LDI S,0x4100; FD 88 (PSH X); FD 0A (POP X)
    let mut bus = bus_with(&[0xB5, 0x10, 0xFD, 0xCA, 0xAA, 0x00, 0x41, 0xFD, 0x88, 0xFD, 0x0A]);
    let mut cpu = cpu_at(0xC000);
    cpu.x = 0x1234;
    assert_eq!(cpu.step(&mut bus), 6);
    assert_eq!(cpu.step(&mut bus), 6);
    assert_eq!(cpu.x(), 0x1244);
    assert_eq!(cpu.step(&mut bus), 7);
    assert_eq!(cpu.s(), 0x4100);
    assert_eq!(cpu.step(&mut bus), 5);
    assert_eq!(cpu.s(), 0x40FE);
    assert_eq!(bus.read_byte(0x40FF), 0x12);
    assert_eq!(bus.read_byte(0x40FE), 0x44);
    cpu.x = 0;
    assert_eq!(cpu.step(&mut bus), 5);
    assert_eq!(cpu.x(), 0x1244);
    assert_eq!(cpu.s(), 0x4100);
}

#[test]
fn step_halted_cpu_idles() {
    let mut bus = bus_with(&[0xB5, 0x01]);
    let mut cpu = cpu_at(0xC000);
    cpu.is_halted = true;
    assert_eq!(cpu.step(&mut bus), 1);
    assert_eq!(cpu.p(), 0xC000);
}

#[test]
fn step_atp_drives_the_output_latch() {
    // LDI A,0x99; FD CC (ATP)
    let mut bus = bus_with(&[0xB5, 0x99, 0xFD, 0xCC]);
    let mut cpu = cpu_at(0xC000);
    cpu.step(&mut bus);
    assert_eq!(cpu.step(&mut bus), 2);
    assert_eq!(bus.output_port, 0x99);
}

#[test]
fn step_adi_on_memory_sets_carry() {
    // LDI XH,0x40; LDI XL,0x00; ADI (X),0x02 on 0xFF -> 0x01 with carry.
    let mut bus = bus_with(&[0x48, 0x40, 0x4A, 0x00, 0x4F, 0x02]);
    let mut cpu = cpu_at(0xC000);
    cpu.step(&mut bus);
    cpu.step(&mut bus);
    assert_eq!(cpu.step(&mut bus), 9);
    assert_eq!(bus.read_byte(0x4000), 0x01);
    assert_eq!(cpu.flags() & 0x02, 0x02);
    assert_eq!(cpu.flags() & 0x01, 0);
}

#[test]
fn dca_adds_in_decimal() {
    // LDI A,0x27; LDI XH,0x40; LDI XL,0x10; STA (X); LDI A,0x15; DCA (X)
    let mut bus = bus_with(&[0xB5, 0x27, 0x48, 0x40, 0x4A, 0x10, 0x0E, 0xB5, 0x15, 0x8C]);
    let mut cpu = cpu_at(0xC000);
    for _ in 0..5 {
        cpu.step(&mut bus);
    }
    assert_eq!(cpu.a(), 0x15);
    assert_eq!(cpu.step(&mut bus), 7);
    // 15 + 27 = 42 in BCD, no decimal carry.
    assert_eq!(cpu.a(), 0x42);
    assert_eq!(cpu.flags() & 0x02, 0);
}

#[test]
fn bcr_forward_branches_on_carry_reset() {
    // BCR +5 with C clear: taken, 8 cycles, P = 0xC002 + 5.
    let mut bus = bus_with(&[0x81, 0x05]);
    let mut cpu = cpu_at(0xC000);
    assert_eq!(cpu.step(&mut bus), 8);
    assert_eq!(cpu.p(), 0xC007);
    // With C set: not taken, 5 cycles.
    let mut cpu = cpu_at(0xC000);
    cpu.set_carry_flag(true);
    assert_eq!(cpu.step(&mut bus), 5);
    assert_eq!(cpu.p(), 0xC002);
}

#[test]
fn handle_interrupt_pushes_and_takes_the_vector() {
    let mut rom = vec![0u8; 0x4000];
    rom[0x3FFA] = 0x34;
    rom[0x3FFB] = 0x12;
    let mut bus = MemoryBus::new(rom);
    let mut cpu = cpu_at(0xC123);
    cpu.handle_interrupt(0xFFFA, &mut bus);
    assert_eq!(cpu.p(), 0x1234);
    // Three bytes (PC high, PC low, IE) went below S = 0.
    assert_eq!(cpu.s(), 0xFFFD);
    assert!(!cpu.interrupt_enabled());
    assert!(!cpu.is_halted());
}

#[test]
fn second_machine_runs_a_frame_and_resets() {
    let mut m = Pc1500Builder::new().model(Pc1500Model::Pc1500A).build().unwrap();
    assert_eq!(m.model(), Pc1500Model::Pc1500A);
    assert_eq!(m.cycles_run(), 0);
    m.step_frame();
    assert!(m.cycles_run() >= 1000);
    assert!(m.cycles_run() < 1000 + 256);
    m.write_memory(0x4000, 0x12);
    assert_eq!(m.read_memory(0x4000), 0x12);
    assert_eq!(m.get_display_memory_info(), (0x7600, 0x774F, 160));
    assert_eq!(m.read_rom_byte(0x8000), 0xFF);
    m.write_display_memory_pattern();
    assert_eq!(m.read_memory(0x7600), 0xFF);
    assert_eq!(m.read_memory(0x7601), 0x00);
    assert_eq!(m.read_memory(0x7700), 0xAA);
    assert_eq!(m.read_memory(0x7713), 0x55);
    m.init_test_mode();
    assert_eq!(m.cpu().p(), 0);
    m.soft_reset();
    assert_eq!(m.cycles_run(), 0);
    assert_eq!(m.cpu_state().pc, 0);
    assert!(Pc1500Builder::new().bios(vec![0u8; 10]).build().is_err());
    let rom = vec![0u8; 0x4000];
    let mut m2 = Machine::new(Pc1500Model::Pc1500, rom);
    assert!(m2.load_bios(&[1, 2, 3]).is_err());
    assert!(m2.load_bios(&vec![0u8; 0x4000]).is_ok());
}
