use chip8::keypad::{keypad_host_key, pressed_key_value};
use chip8::state::{DISPLAY_SIZE, MAX_ROM_SIZE, PIXEL_ON};
use chip8::{Chip8Error, CycleReport, HostKey, Input, KeyWarning, Machine, Sound};

fn no_input() -> Input {
    Input { keys_down: Vec::new(), keys_pressed: Vec::new(), timer_tick: false }
}

fn tick() -> Input {
    Input { keys_down: Vec::new(), keys_pressed: Vec::new(), timer_tick: true }
}

/// A machine with the font written and `rom` loaded.
fn boot(rom: &[u8]) -> Machine {
    let mut m = Machine::new();
    m.write_font();
    m.load_rom(rom).unwrap();
    m
}

fn run(m: &mut Machine, input: &Input, n: usize) -> Result<CycleReport, Chip8Error> {
    let mut last = Ok(CycleReport { sound: Sound::Unchanged, key_warning: None });
    for _ in 0..n {
        assert!(!m.next_cycle_panics(input));
        last = m.step(input, 0);
        if last.is_err() {
            return last;
        }
    }
    last
}

fn v(m: &Machine, i: usize) -> u8 {
    m.cpu().register(i)
}

#[test]
fn power_on_state() {
    let m = Machine::new();
    assert_eq!(m.cpu().pc(), 0x200);
    assert_eq!(m.cpu().index(), 0);
    assert!(m.cpu().stack().is_empty());
    assert_eq!(m.cpu().delay_timer(), 0);
    assert_eq!(m.cpu().sound_timer(), 0);
    assert!(!m.sound_playing());
    for i in 0..16 {
        assert_eq!(v(&m, i), 0);
    }
    for a in 0..4096 {
        assert_eq!(m.cpu().memory_at(a), 0);
    }
    assert!(m.buffer().iter().all(|&p| p == 0));
}

#[test]
fn font_is_written_at_zero() {
    let mut m = Machine::new();
    m.write_font();
    assert_eq!(
        [m.cpu().memory_at(0), m.cpu().memory_at(1), m.cpu().memory_at(4)],
        [0xF0, 0x90, 0xF0]
    );
    // glyph F
    let f: Vec<u8> = (75..80).map(|a| m.cpu().memory_at(a)).collect();
    assert_eq!(f, vec![0xF0, 0x80, 0xF0, 0x80, 0x80]);
    assert_eq!(m.cpu().memory_at(80), 0);
}

#[test]
fn rom_is_loaded_at_program_start() {
    let m = boot(&[0x12, 0x34, 0x56]);
    assert_eq!(m.cpu().memory_at(0x200), 0x12);
    assert_eq!(m.cpu().memory_at(0x201), 0x34);
    assert_eq!(m.cpu().memory_at(0x202), 0x56);
    assert_eq!(m.cpu().memory_at(0x203), 0);
}

#[test]
fn rom_of_maximal_size_fits() {
    let rom = vec![0xAA; MAX_ROM_SIZE];
    let mut m = Machine::new();
    assert_eq!(m.load_rom(&rom), Ok(()));
    assert_eq!(m.cpu().memory_at(4095), 0xAA);
}

#[test]
fn rom_too_large_is_refused() {
    let rom = vec![0xAA; MAX_ROM_SIZE + 1];
    let mut m = Machine::new();
    assert_eq!(
        m.load_rom(&rom),
        Err(Chip8Error::RomTooLarge { size: 3585, max: 3584 })
    );
    assert_eq!(m.cpu().memory_at(0x200), 0);
}

#[test]
fn first_fetch_reads_rom() {
    // 6A42: VA = 0x42
    let mut m = boot(&[0x6A, 0x42]);
    run(&mut m, &no_input(), 1).unwrap();
    assert_eq!(v(&m, 0xA), 0x42);
    assert_eq!(m.cpu().pc(), 0x202);
}

#[test]
fn jump_sets_pc() {
    let mut m = boot(&[0x1A, 0xBC]);
    run(&mut m, &no_input(), 1).unwrap();
    assert_eq!(m.cpu().pc(), 0xABC);
}

#[test]
fn return_undoes_call() {
    // 0x200: call 0x206; 0x202: V1 = 7; 0x204: jump 0x204; 0x206: return
    let mut m = boot(&[0x22, 0x06, 0x61, 0x07, 0x12, 0x04, 0x00, 0xEE]);
    run(&mut m, &no_input(), 1).unwrap();
    assert_eq!(m.cpu().pc(), 0x206);
    assert_eq!(m.cpu().stack(), &vec![0x202]);
    run(&mut m, &no_input(), 1).unwrap();
    assert_eq!(m.cpu().pc(), 0x202);
    assert!(m.cpu().stack().is_empty());
    run(&mut m, &no_input(), 1).unwrap();
    assert_eq!(v(&m, 1), 7);
}

#[test]
fn return_with_empty_stack_panics() {
    let m = boot(&[0x00, 0xEE]);
    assert!(m.next_cycle_panics(&no_input()));
}

#[test]
fn pc_past_memory_panics() {
    let mut m = boot(&[0x1F, 0xFF]);
    run(&mut m, &no_input(), 1).unwrap();
    assert_eq!(m.cpu().pc(), 0xFFF);
    assert!(m.next_cycle_panics(&no_input()));
}

#[test]
fn skips_on_byte_compare() {
    // V0 = 5; skip if V0 == 5; V1 = 1 (skipped); skip if V0 != 5; V2 = 2
    let mut m = boot(&[0x60, 0x05, 0x30, 0x05, 0x61, 0x01, 0x40, 0x05, 0x62, 0x02]);
    run(&mut m, &no_input(), 2).unwrap();
    assert_eq!(m.cpu().pc(), 0x206);
    run(&mut m, &no_input(), 2).unwrap();
    assert_eq!(v(&m, 1), 0);
    assert_eq!(v(&m, 2), 2);
}

#[test]
fn skips_on_register_compare() {
    // V0 = 3; V1 = 3; skip if V0 == V1; (skipped); skip if V0 != V1 (no skip)
    let mut m = boot(&[0x60, 0x03, 0x61, 0x03, 0x50, 0x10, 0x00, 0x00, 0x90, 0x10]);
    run(&mut m, &no_input(), 3).unwrap();
    assert_eq!(m.cpu().pc(), 0x208);
    run(&mut m, &no_input(), 1).unwrap();
    assert_eq!(m.cpu().pc(), 0x20A);
}

#[test]
fn add_byte_wraps_without_flag() {
    let mut m = boot(&[0x60, 0xFF, 0x70, 0x02, 0x6F, 0x09]);
    run(&mut m, &no_input(), 3).unwrap();
    assert_eq!(v(&m, 0), 0x01);
    assert_eq!(v(&m, 0xF), 9);
}

fn alu(vx: u8, vy: u8, kind: u8) -> (u8, u8) {
    // V1 = vx; V2 = vy; VF = 0x77; 8 1 2 kind
    let mut m = boot(&[0x61, vx, 0x62, vy, 0x6F, 0x77, 0x81, 0x20 | kind]);
    run(&mut m, &no_input(), 4).unwrap();
    (v(&m, 1), v(&m, 0xF))
}

#[test]
fn arithmetic_results() {
    assert_eq!(alu(0x12, 0x34, 0x0), (0x34, 0x77));
    assert_eq!(alu(0xF0, 0x0F, 0x1), (0xFF, 0));
    assert_eq!(alu(0xF0, 0x3C, 0x2), (0x30, 0));
    assert_eq!(alu(0xF0, 0x3C, 0x3), (0xCC, 0));
    assert_eq!(alu(200, 100, 0x4), (44, 1));
    assert_eq!(alu(20, 100, 0x4), (120, 0));
    assert_eq!(alu(100, 20, 0x5), (80, 1));
    assert_eq!(alu(20, 100, 0x5), (176, 0));
    assert_eq!(alu(0x00, 0x05, 0x6), (0x02, 1));
    assert_eq!(alu(100, 20, 0x7), (176, 0));
    assert_eq!(alu(20, 100, 0x7), (80, 1));
    assert_eq!(alu(0x00, 0x81, 0xE), (0x02, 1));
}

#[test]
fn add_carry_makes_up_the_sum() {
    for (a, b) in [(0u8, 0u8), (255, 1), (128, 128), (17, 250)] {
        let (r, f) = alu(a, b, 0x4);
        assert_eq!(r as u32 + 256 * f as u32, a as u32 + b as u32);
    }
}

#[test]
fn flag_wins_when_x_is_f() {
    // VF = 200; V1 = 100; 8F14: VF = VF + V1 -> result 44, then flag 1 overwrites it
    let mut m = boot(&[0x6F, 200, 0x61, 100, 0x8F, 0x14]);
    run(&mut m, &no_input(), 3).unwrap();
    assert_eq!(v(&m, 0xF), 1);
}

#[test]
fn unknown_arithmetic_opcode_fails() {
    let mut m = boot(&[0x80, 0x18]);
    assert_eq!(run(&mut m, &no_input(), 1), Err(Chip8Error::UnknownOpcode(0x8018)));
    assert_eq!(m.cpu().pc(), 0x202);
}

#[test]
fn unknown_opcodes_fail() {
    for op in [0x0123u16, 0xE0FF, 0xF0FF, 0x00E1] {
        let mut m = boot(&[(op >> 8) as u8, op as u8]);
        assert_eq!(run(&mut m, &no_input(), 1), Err(Chip8Error::UnknownOpcode(op)));
    }
}

#[test]
fn index_and_offset_jump() {
    // I = 0x123; V0 = 0x10; jump to 0x300 + V0
    let mut m = boot(&[0xA1, 0x23, 0x60, 0x10, 0xB3, 0x00]);
    run(&mut m, &no_input(), 3).unwrap();
    assert_eq!(m.cpu().index(), 0x123);
    assert_eq!(m.cpu().pc(), 0x310);
}

#[test]
fn random_is_masked_with_drawn_byte() {
    let mut m = boot(&[0xC3, 0x0F]);
    assert!(m.step(&no_input(), 0xAB).is_ok());
    assert_eq!(v(&m, 3), 0x0B);
}

#[test]
fn random_byte_comes_from_the_generator() {
    let mut m = boot(&[0xC3, 0xF0, 0x12, 0x00]);
    let mut seen = std::collections::HashSet::new();
    for _ in 0..200 {
        run_cycle(&mut m);
        assert_eq!(v(&m, 3) & 0x0F, 0);
        seen.insert(v(&m, 3));
        run_cycle(&mut m);
    }
    assert!(seen.len() > 1);
}

fn run_cycle(m: &mut Machine) {
    assert!(!m.next_cycle_panics(&no_input()));
    m.cycle(&no_input()).unwrap();
}

fn lit(m: &Machine, x: usize, y: usize) -> bool {
    m.buffer()[y * 64 + x] == PIXEL_ON
}

#[test]
fn draw_font_glyph_zero() {
    // V0 = 0 (digit); I = glyph of V0; draw at (V1, V2) = (0, 0), 5 rows
    let mut m = boot(&[0xF0, 0x29, 0xD1, 0x25]);
    run(&mut m, &no_input(), 2).unwrap();
    assert!(lit(&m, 0, 0) && lit(&m, 3, 0) && !lit(&m, 4, 0));
    assert!(lit(&m, 0, 1) && !lit(&m, 1, 1) && lit(&m, 3, 1));
    assert!(lit(&m, 0, 4) && lit(&m, 3, 4));
    assert_eq!(v(&m, 0xF), 0);
    let count = m.buffer().iter().filter(|&&p| p != 0).count();
    assert_eq!(count, 4 + 2 + 2 + 2 + 4);
}

#[test]
fn draw_twice_restores_display_and_reports_collision() {
    let mut m = boot(&[0x60, 0x08, 0xF0, 0x29, 0x61, 0x05, 0xD1, 0x15, 0xD1, 0x15]);
    run(&mut m, &no_input(), 4).unwrap();
    assert_eq!(v(&m, 0xF), 0);
    assert!(m.buffer().iter().any(|&p| p != 0));
    run(&mut m, &no_input(), 1).unwrap();
    assert_eq!(v(&m, 0xF), 1);
    assert!(m.buffer().iter().all(|&p| p == 0));
}

#[test]
fn draw_wraps_around_edges() {
    // V1 = 62, V2 = 30, I = glyph 0; draw 5 rows
    let mut m = boot(&[0x61, 62, 0x62, 30, 0xA0, 0x00, 0xD1, 0x25]);
    run(&mut m, &no_input(), 4).unwrap();
    // row 0 of glyph 0 is 0xF0: columns 62, 63, 0, 1 of line 30
    assert!(lit(&m, 62, 30) && lit(&m, 63, 30) && lit(&m, 0, 30) && lit(&m, 1, 30));
    assert!(!lit(&m, 2, 30));
    // rows 2..4 wrap to lines 0..2
    assert!(lit(&m, 62, 0) && lit(&m, 1, 0));
    assert!(lit(&m, 62, 2) && lit(&m, 1, 2));
    assert_eq!(m.buffer().len(), DISPLAY_SIZE);
}

#[test]
fn clear_screen_turns_all_pixels_off() {
    let mut m = boot(&[0xD0, 0x05, 0x00, 0xE0]);
    run(&mut m, &no_input(), 1).unwrap();
    assert!(m.buffer().iter().any(|&p| p != 0));
    run(&mut m, &no_input(), 1).unwrap();
    assert!(m.buffer().iter().all(|&p| p == 0));
}

#[test]
fn sprite_past_memory_end_panics() {
    // I = 0xFFE; draw 5 rows
    let mut m = boot(&[0xAF, 0xFE, 0xD0, 0x05]);
    run(&mut m, &no_input(), 1).unwrap();
    assert!(m.next_cycle_panics(&no_input()));
}

fn keys(down: Vec<HostKey>, pressed: Vec<HostKey>) -> Input {
    Input { keys_down: down, keys_pressed: pressed, timer_tick: false }
}

#[test]
fn key_tests_skip() {
    // V0 = 5 (host key W); EX9E skips when W is down; EXA1 skips when it is up
    let rom = [0x60, 0x05, 0xE0, 0x9E, 0x00, 0x00, 0xE0, 0xA1];
    let mut m = boot(&rom);
    run(&mut m, &no_input(), 1).unwrap();
    run(&mut m, &keys(vec![HostKey::W], vec![]), 1).unwrap();
    assert_eq!(m.cpu().pc(), 0x206);
    run(&mut m, &keys(vec![HostKey::W], vec![]), 1).unwrap();
    assert_eq!(m.cpu().pc(), 0x208);

    let mut m = boot(&rom);
    run(&mut m, &no_input(), 1).unwrap();
    run(&mut m, &keys(vec![HostKey::Q], vec![]), 1).unwrap();
    assert_eq!(m.cpu().pc(), 0x204);
}

#[test]
fn key_test_with_no_such_key_warns() {
    let mut m = boot(&[0x63, 0x42, 0xE3, 0x9E]);
    run(&mut m, &no_input(), 1).unwrap();
    let report = run(&mut m, &no_input(), 1).unwrap();
    assert_eq!(
        report.key_warning,
        Some(KeyWarning { opcode: 0xE39E, register: 3, value: 0x42 })
    );
    assert_eq!(m.cpu().pc(), 0x204);
}

#[test]
fn wait_key_blocks_until_a_key_goes_down() {
    let mut m = boot(&[0xF4, 0x0A]);
    run(&mut m, &no_input(), 3).unwrap();
    assert_eq!(m.cpu().pc(), 0x200);
    run(&mut m, &keys(vec![HostKey::Q], vec![HostKey::Q, HostKey::W]), 1).unwrap();
    assert_eq!(v(&m, 4), 0x5);
    assert_eq!(m.cpu().pc(), 0x202);
}

#[test]
fn wait_key_refuses_a_key_without_digit() {
    let mut m = boot(&[0xF4, 0x0A]);
    assert_eq!(
        run(&mut m, &keys(vec![], vec![HostKey::V]), 1),
        Err(Chip8Error::InvalidKey(HostKey::V))
    );
    assert_eq!(v(&m, 4), 0);
}

#[test]
fn timers_tick_down_and_drive_the_tone() {
    // V0 = 2; delay = V0; sound = V0; V1 = delay; loop
    let mut m = boot(&[0x60, 0x02, 0xF0, 0x15, 0xF0, 0x18, 0xF1, 0x07, 0x12, 0x08]);
    run(&mut m, &no_input(), 2).unwrap();
    assert_eq!(m.cpu().delay_timer(), 2);
    let r = run(&mut m, &no_input(), 1).unwrap();
    assert_eq!(r.sound, Sound::Start);
    assert!(m.sound_playing());
    let r = run(&mut m, &tick(), 1).unwrap();
    assert_eq!(r.sound, Sound::Unchanged);
    assert_eq!(v(&m, 1), 2);
    assert_eq!(m.cpu().delay_timer(), 1);
    assert_eq!(m.cpu().sound_timer(), 1);
    let r = run(&mut m, &tick(), 1).unwrap();
    assert_eq!(r.sound, Sound::Stop);
    assert!(!m.sound_playing());
    let r = run(&mut m, &tick(), 1).unwrap();
    assert_eq!(r.sound, Sound::Unchanged);
    assert_eq!(m.cpu().delay_timer(), 0);
    assert_eq!(m.cpu().sound_timer(), 0);
}

#[test]
fn index_add_and_font_address() {
    // I = 0x100; V2 = 0x0F; I += V2; FX29 with V2 = 0xF
    let mut m = boot(&[0xA1, 0x00, 0x62, 0x0F, 0xF2, 0x1E, 0xF2, 0x29]);
    run(&mut m, &no_input(), 3).unwrap();
    assert_eq!(m.cpu().index(), 0x10F);
    run(&mut m, &no_input(), 1).unwrap();
    assert_eq!(m.cpu().index(), 75);
    assert_eq!(m.cpu().memory_at(75), 0xF0);
}

#[test]
fn font_address_of_large_value_panics() {
    let mut m = boot(&[0x62, 52, 0xF2, 0x29]);
    run(&mut m, &no_input(), 1).unwrap();
    assert!(m.next_cycle_panics(&no_input()));
}

#[test]
fn bcd_digits() {
    // V5 = 254; I = 0x300; FX33
    let mut m = boot(&[0x65, 254, 0xA3, 0x00, 0xF5, 0x33]);
    run(&mut m, &no_input(), 3).unwrap();
    assert_eq!(
        [m.cpu().memory_at(0x300), m.cpu().memory_at(0x301), m.cpu().memory_at(0x302)],
        [2, 5, 4]
    );
}

#[test]
fn store_then_load_registers() {
    // V0..V2 = 1,2,3; I = 0x300; F255; V0..V2 = 0; F265
    let rom = [
        0x60, 1, 0x61, 2, 0x62, 3, 0xA3, 0x00, 0xF2, 0x55, 0x60, 0, 0x61, 0, 0x62, 0, 0x63, 9,
        0xF2, 0x65,
    ];
    let mut m = boot(&rom);
    run(&mut m, &no_input(), 5).unwrap();
    assert_eq!(
        [m.cpu().memory_at(0x300), m.cpu().memory_at(0x301), m.cpu().memory_at(0x302)],
        [1, 2, 3]
    );
    assert_eq!(m.cpu().memory_at(0x303), 0);
    assert_eq!(m.cpu().index(), 0x300);
    run(&mut m, &no_input(), 5).unwrap();
    assert_eq!([v(&m, 0), v(&m, 1), v(&m, 2), v(&m, 3)], [1, 2, 3, 9]);
}

#[test]
fn keypad_tables() {
    let mut seen = Vec::new();
    for value in 0u8..16 {
        let k = keypad_host_key(value).unwrap();
        assert!(!seen.contains(&k));
        seen.push(k);
    }
    assert_eq!(keypad_host_key(16), None);
    assert_eq!(keypad_host_key(0xC), Some(HostKey::Key4));
    assert_eq!(pressed_key_value(HostKey::Key4), Some(0x4));
    assert_eq!(pressed_key_value(HostKey::C), Some(0xF));
    assert_eq!(pressed_key_value(HostKey::V), None);
    assert_eq!(pressed_key_value(HostKey::Other), None);
}
