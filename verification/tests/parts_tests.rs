use ceres_pc1500::joypad::{Key as JoyKey, Keyboard as JoyKeyboard};
use ceres_pc1500::key_mapper::{Pc1500KeyMapper, PhysicalKey};
use ceres_pc1500::keyboard_controller::KeyboardController;
use ceres_pc1500::lcd;
use ceres_pc1500::memory_map::MemoryBus;
use ceres_pc1500::options::{AppOption, Cli, Model, ScalingOption, ShaderOption, System};
use ceres_pc1500::pc1500::cpu::Lh5801Cpu;
use ceres_pc1500::pc1500::display::DisplayController as VramDisplay;
use ceres_pc1500::pc1500::interrupts::InterruptController;
use ceres_pc1500::pc1500::model::Pc1500Model;
use ceres_pc1500::pc1500::timing::{Pc1500System, Timer};
use ceres_pc1500::pc1500_old::{Pc1500 as OldMachine, Pc1500Builder as OldBuilder, Pc1500Display, Pc1500Keyboard};
use ceres_pc1500::pc1500_old::Pc1500Model as OldModel;

#[test]
fn interrupt_priority_and_no_nesting() {
    let mut ints = InterruptController::new();
    ints.request_maskable_interrupt();
    ints.request_timer_interrupt();
    // Disabled: nothing is served.
    assert_eq!(ints.check_pending_interrupt(), None);
    ints.set_ie();
    // The timer request goes first.
    assert_eq!(ints.check_pending_interrupt(), Some(0xFFFB));
    assert!(ints.is_processing_interrupt());
    // No nesting while one is in service.
    assert_eq!(ints.check_pending_interrupt(), None);
    ints.complete_interrupt_processing();
    assert_eq!(ints.check_pending_interrupt(), Some(0xFFFA));
    assert!(!ints.timer_interrupt_requested());
    assert!(!ints.maskable_interrupt_requested());
    let st = ints.get_status();
    assert!(st.ie_flag && st.processing_interrupt);
    ints.start_interrupt_processing();
    assert!(!ints.ie_enabled());
}

#[test]
fn timer_counts_every_128_cycles_and_wraps() {
    let mut t = Timer::new();
    assert!(!t.run_cycles(1000));
    assert_eq!(t.counter(), 0);
    t.set_am1(0xFE);
    assert_eq!(t.counter(), 0x1FE);
    assert!(!t.run_cycles(127));
    assert_eq!(t.counter(), 0x1FE);
    // Reaching 0x1FF requests the interrupt; the next count wraps to 0.
    assert!(t.run_cycles(1));
    assert_eq!(t.counter(), 0x1FF);
    assert!(!t.run_cycles(128));
    assert_eq!(t.counter(), 0);
    t.disable();
    assert!(!t.is_enabled());
    let mut sys = Pc1500System::new();
    sys.cpu_am0_instruction(0x10);
    assert_eq!(sys.timer_counter(), 0x10);
    assert!(sys.timer_enabled());
    assert!(!sys.run_cycles(256));
    assert_eq!(sys.timer_counter(), 0x12);
    sys.disable_timer();
    assert!(!sys.timer_enabled());
}

#[test]
fn second_cpu_model_registers() {
    let mut cpu = Lh5801Cpu::new();
    cpu.set_a(0x12);
    cpu.set_b(0x34);
    cpu.set_pc(0xC000);
    cpu.set_xh(0xAB);
    cpu.set_xl(0xCD);
    assert_eq!(cpu.x(), 0xABCD);
    assert_eq!(cpu.xh(), 0xAB);
    assert_eq!(cpu.xl(), 0xCD);
    assert_eq!(cpu.ph(), 0xC0);
    cpu.set_carry_flag(true);
    assert_eq!(cpu.flags(), 0x02);
    cpu.set_zero_flag(true);
    assert_eq!(cpu.flags(), 0x03);
    assert!(!cpu.should_handle_interrupt());
    cpu.reset();
    assert_eq!(cpu.a(), 0);
    assert_eq!(cpu.p(), 0);
    assert!(!cpu.interrupt_enabled());
    assert!(!cpu.is_halted());
}

#[test]
fn joypad_key_codes_and_scan() {
    let mut kb = JoyKeyboard::new();
    let mut ints = InterruptController::new();
    assert_eq!(kb.get_pressed_key_code(), 0xFF);
    kb.press(JoyKey::A, &mut ints);
    assert!(ints.maskable_interrupt_requested());
    assert!(kb.is_pressed(JoyKey::A));
    assert_eq!(kb.get_pressed_key_code(), 0x14);
    assert_eq!(kb.read_keyboard_matrix(), 0x14);
    assert_eq!(kb.read_input_pins_in0_in7(), 0x14);
    kb.release(JoyKey::A);
    assert!(!kb.is_pressed(JoyKey::A));
    assert_eq!(kb.read_column_state(7), 0xFF);
    kb.write_column_select(3);
    kb.write_row_select(5);
    assert_eq!(kb.read_column_select(), 3);
    assert_eq!(kb.read_row_select(), 5);
}

#[test]
fn keyboard_controller_matrix() {
    let mut kc = KeyboardController::new();
    kc.set_key(2, 5, true);
    assert!(kc.get_key(2, 5));
    assert!(!kc.get_key(9, 5));
    kc.set_scan_row(2);
    assert_eq!(kc.read_columns(), 0x20);
    kc.handle_pc_key(12, true); // digit 2 -> (0, 1)
    assert!(kc.get_key(0, 1));
    kc.handle_pc_key(57, true); // space -> (7, 0)
    assert!(kc.get_key(7, 0));
    kc.clear_all();
    assert!(!kc.get_key(2, 5));
    assert_eq!(kc.read_columns(), 0);
}

#[test]
fn key_mapper_tracks_held_keys() {
    let mut m = Pc1500KeyMapper::new();
    assert_eq!(m.map_physical_to_pc1500(PhysicalKey::Period), Some(JoyKey::Dot));
    assert_eq!(m.handle_key_pressed(PhysicalKey::Num5), Some(JoyKey::Five));
    m.simulate_press(JoyKey::Enter);
    assert!(m.is_pressed(JoyKey::Five));
    assert_eq!(m.get_pressed_keys(), vec![JoyKey::Five, JoyKey::Enter]);
    assert_eq!(m.handle_key_released(PhysicalKey::Num5), Some(JoyKey::Five));
    assert!(!m.is_pressed(JoyKey::Five));
    m.clear_all();
    assert!(m.get_pressed_keys().is_empty());
    assert!(Pc1500KeyMapper::get_help_text().starts_with("PC-1500 Keyboard Mappings"));
}

#[test]
fn vram_pixels_and_symbols() {
    let mut d = VramDisplay::new();
    d.set_pixel(10, 5, true);
    assert!(d.get_pixel(10, 5));
    assert_eq!(d.read_vram(10), 0x20);
    d.set_pixel(10, 5, false);
    assert!(!d.get_pixel(10, 5));
    d.set_first_symbol(3, 0xFA);
    d.set_second_symbol(3, 0x05);
    assert_eq!(d.get_first_symbol(3), 0x0A);
    assert_eq!(d.get_second_symbol(3), 0x05);
    assert_eq!(d.read_pc1500_symbols(3), 0x5A);
    assert_eq!(d.read_vram(200), 0xFF);
    d.set_control(0x03);
    let buf = d.rgba_buffer().to_vec();
    // Column 3 row 1 is on: contrast 1.
    let o = (1 * 156 + 3) * 4;
    assert_eq!(&buf[o..o + 4], &[1, 1, 1, 255]);
    assert!(!d.is_dirty());
    d.fill();
    assert_eq!(d.read_vram(0), 0xFF);
    d.clear();
    assert_eq!(d.read_vram(0), 0x00);
}

#[test]
fn vram_draws_text() {
    let mut d = VramDisplay::new();
    d.draw_char(0, 0, 'I');
    // 'I' top row is 0x1C: bit 4 is column 0, so columns 0..2 are on.
    assert!(d.get_pixel(0, 0));
    assert!(d.get_pixel(1, 0));
    assert!(d.get_pixel(2, 0));
    assert!(!d.get_pixel(3, 0));
    assert!(!d.get_pixel(4, 0));
    // Second row 0x08: only column 1.
    assert!(!d.get_pixel(0, 1));
    assert!(d.get_pixel(1, 1));
    assert!(!d.get_pixel(2, 1));
    d.show_status("HI");
    assert!(d.is_dirty());
    d.test_pattern_with_text();
    assert!(d.rgba_buffer_const().len() == 156 * 7 * 4);
}

#[test]
fn plain_memory_map_and_lcd() {
    let mut mem = MemoryBus::new(vec![0x5A; 0x4000]);
    assert_eq!(mem.read_byte(0x4000, false, false), 0xFF);
    mem.write_byte(0x4000, false, false, 0x12);
    assert_eq!(mem.read_byte(0x4000, false, false), 0x12);
    assert_eq!(mem.standard_user_memory()[0], 0x12);
    assert_eq!(mem.read_byte(0xC000, false, false), 0x5A);
    mem.write_byte(0xC000, false, false, 0x00);
    assert_eq!(mem.read_byte(0xC000, false, false), 0x5A);
    mem.write_byte(0x7600, false, false, 0x01);
    let mut d = lcd::DisplayController::new();
    d.update_buffer(&mem);
    assert_eq!(&d.rgba_buffer()[0..4], &[0, 0, 0, 255]);
}

#[test]
fn first_model_display_and_keyboard() {
    let mut d = Pc1500Display::default();
    d.write_display_data(0, 0x80);
    assert_eq!(d.read_display_data(0), 0x80);
    assert_eq!(d.read_display_data(200), 0xFF);
    let rgba = d.get_pixel_data_rgba();
    assert_eq!(rgba.len(), 156 * 32);
    assert_eq!(&rgba[0..8], &[0, 0, 0, 0xFF, 0xFF, 0xFF, 0xFF, 0xFF]);
    let mut k = Pc1500Keyboard::default();
    k.set_key_state(1, 2, true);
    k.set_row_select(9);
    assert_eq!(k.read_current_row(), 0x04);
}

#[test]
fn options_names_and_lists() {
    assert_eq!(System::GameBoy.str(), "gameboy");
    assert_eq!(ShaderOption::Scale2x.str(), "scale2x");
    assert_eq!(ScalingOption::PixelPerfect.str(), "pixel-perfect");
    assert_eq!(Model::Cgb.str(), "cgb");
    assert_eq!(ShaderOption::iter().len(), 5);
    assert_eq!(System::default(), System::GameBoy);
    assert_eq!(ScalingOption::default(), ScalingOption::Stretch);
    let cli = Cli {
        file: None,
        system: System::Pc1500,
        model: Model::Dmg,
        shader_option: ShaderOption::Lcd,
        pixel_mode: ScalingOption::PixelPerfect,
    };
    assert_eq!(cli.system(), System::Pc1500);
    assert_eq!(cli.pc1500_model(), Pc1500Model::Pc1500);
    assert_eq!(cli.scaling_option(), ScalingOption::PixelPerfect);
    assert!(cli.file().is_none());
    assert_eq!(Pc1500Model::Pc1500.ram_size(), 0x2000);
    assert_eq!(Pc1500Model::Pc1500A.ram_size(), 0x4000);
    assert!(Pc1500Model::Pc1500A.ram_size() > Pc1500Model::Pc1500.ram_size());
}

#[test]
fn joypad_keys_do_not_alias() {
    let mut kb = JoyKeyboard::new();
    let mut ints = InterruptController::new();
    kb.press(JoyKey::LeftParen, &mut ints);
    assert!(kb.is_pressed(JoyKey::LeftParen));
    assert!(!kb.is_pressed(JoyKey::Space));
    kb.release(JoyKey::LeftParen);
    kb.press(JoyKey::D, &mut ints);
    assert_eq!(kb.get_pressed_key_code(), 0x44);
    kb.release(JoyKey::D);
    kb.press(JoyKey::Space, &mut ints);
    assert_eq!(kb.read_column_state(2), 0xFE);
    assert_eq!(kb.read_column_state(3), 0xFF);
}

#[test]
fn vram_display_draws_strings() {
    let mut d = VramDisplay::new();
    // 'A' top row is 0x1C: dots at columns 0-2 of its cell.
    d.draw_string(0, 0, "A");
    assert!(d.get_pixel(0, 0));
    assert!(d.get_pixel(2, 0));
    assert!(!d.get_pixel(3, 0));
    assert!(!d.get_pixel(5, 0));
    // Centred: "AB" is 11 dots wide, so it starts at column (156 - 11) / 2 = 72.
    let mut c = VramDisplay::new();
    c.draw_string_centered(0, "AB");
    assert!(c.get_pixel(72, 0));
    assert!(!c.get_pixel(71, 0));
    c.show_status("A");
    assert!(c.is_dirty());
    // Row 1 holds the top row of 'A', centred at column (156 - 5) / 2 = 75.
    assert!(c.get_pixel(75, 1));
    assert!(!c.get_pixel(72, 0));
}

#[test]
fn old_machine_memory_map() {
    let mut m = OldMachine::new(OldModel::Pc1500, vec![1, 2, 3]);
    assert_eq!(m.read_mem(0), 1);
    assert_eq!(m.read_mem(5), 0xFF);
    m.write_mem(0x8000, 7);
    assert_eq!(m.read_mem(0x8000), 7);
    // Past the 2 KB of the PC-1500: not stored, reads 0xFF.
    m.write_mem(0x8800, 9);
    assert_eq!(m.read_mem(0x8800), 0xFF);
    m.write_mem(0x7601, 0x80);
    assert_eq!(m.display().read_display_data(1), 0x80);
    m.write_mem(0xFC01, 0x0B);
    assert_eq!(m.keyboard().current_row, 3);
    assert_eq!(m.read_mem(0xFC00), 0);
    assert_eq!(m.step(), 1);
    assert_eq!(m.cycles_run, 1);
    m.reset();
    assert_eq!(m.cycles_run, 0);
    assert_eq!(m.get_display_rgba().len(), 156 * 32);
    let b = OldBuilder::new().model(OldModel::Pc1500A).bios(vec![0xAA]).build();
    assert_eq!(b.read_mem(0), 0xAA);
    assert_eq!(b.ram.len(), 8192);
}
