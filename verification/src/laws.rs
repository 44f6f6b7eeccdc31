//! Properties of the instruction set that span instructions, cycles or states.

use vstd::prelude::*;
use crate::state::{HostKey, InputState, MachineState, Sound, DISPLAY_SIZE, MEMORY_SIZE, PIXEL_ON, PROGRAM_START};
use crate::keypad::{keypad_key, pressed_value};
use crate::semantics::{
    advance, arithmetic, call, clear_display, draw, execute, execute_panics, family, fetch, font,
    load_registers, low_byte, misc, nibble, power_on, reg_x, reg_y, return_from_call, step,
    store_bcd, store_registers, with_font, with_rom,
};

verus! {

/// A return right after a call undoes the call: the program counter and the
/// saved addresses are as before the call.
pub proof fn law_return_undoes_call(s: MachineState, op: u16)
    requires
        family(op) == 0x2,
    ensures
        return_from_call(call(s, op)) == s,
        execute(call(s, op), 0x00EE, InputState {
            keys_down: Seq::empty(),
            keys_pressed: Seq::empty(),
            timer_tick: false,
        }, 0) == Ok::<(MachineState, Option<crate::state::KeyWarning>), crate::state::Chip8Error>(
            (s, None),
        ),
{
    assert(call(s, op).cpu.stack.drop_last() =~= s.cpu.stack);
    assert(return_from_call(call(s, op)).cpu =~= s.cpu);
}

/// Drawing the same sprite twice at the same place leaves the display as it
/// was, when neither coordinate register is `VF` (the first draw rewrites `VF`).
pub proof fn law_draw_twice_restores_display(s: MachineState, op: u16)
    requires
        s.wf(),
        reg_x(op) != 0xF,
        reg_y(op) != 0xF,
    ensures
        draw(draw(s, op), op).display == s.display,
{
    let t = draw(s, op);
    let vx = s.reg(reg_x(op));
    let vy = s.reg(reg_y(op));
    assert(t.reg(reg_x(op)) == vx);
    assert(t.reg(reg_y(op)) == vy);
    assert forall|p: int| 0 <= p < DISPLAY_SIZE implies #[trigger] draw(t, op).display[p]
        == s.display[p] by {
        let d = s.display[p];
        assert((d ^ PIXEL_ON) ^ PIXEL_ON == d) by (bit_vector);
    }
    assert(draw(t, op).display =~= s.display);
}

/// The display only ever holds dark (0) and lit (`PIXEL_ON`) pixels: clearing
/// and drawing keep that so.
pub proof fn law_display_stays_binary(s: MachineState, op: u16)
    requires
        s.wf(),
        forall|p: int| 0 <= p < DISPLAY_SIZE ==> #[trigger] s.display[p] == 0 || s.display[p] == PIXEL_ON,
    ensures
        forall|p: int|
            0 <= p < DISPLAY_SIZE ==> #[trigger] draw(s, op).display[p] == 0 || draw(s, op).display[p]
                == PIXEL_ON,
        forall|p: int|
            0 <= p < DISPLAY_SIZE ==> #[trigger] clear_display(s).display[p] == 0,
{
    assert forall|p: int| 0 <= p < DISPLAY_SIZE implies #[trigger] draw(s, op).display[p] == 0
        || draw(s, op).display[p] == PIXEL_ON by {
        let d = s.display[p];
        assert(d == 0 || d == PIXEL_ON);
        assert(d == 0 ==> d ^ PIXEL_ON == PIXEL_ON) by (bit_vector);
        assert(d == PIXEL_ON ==> d ^ PIXEL_ON == 0) by (bit_vector);
    }
}

/// Storing registers `V0..=VX` at `I` (`FX55`) and loading them back from
/// the same place (`FX65` with the same `X`) changes no register.
pub proof fn law_load_after_store(s: MachineState, store: u16, load: u16)
    requires
        s.wf(),
        low_byte(store) == 0x55,
        low_byte(load) == 0x65,
        reg_x(store) == reg_x(load),
        s.cpu.index + reg_x(store) < MEMORY_SIZE,
    ensures
        load_registers(store_registers(s, store), load) == store_registers(s, store),
{
    let t = store_registers(s, store);
    assert(load_registers(t, load).cpu.v =~= t.cpu.v);
    assert(load_registers(t, load).cpu =~= t.cpu);
}

/// `FX33` writes the three decimal digits of `VX`, most significant first.
pub proof fn law_bcd_digits(s: MachineState, op: u16)
    requires
        s.wf(),
        s.cpu.index + 2 < MEMORY_SIZE,
    ensures
        ({
            let m = store_bcd(s, op).cpu.memory;
            let i = s.cpu.index as int;
            &&& m[i] < 10 && m[i + 1] < 10 && m[i + 2] < 10
            &&& m[i] * 100 + m[i + 1] * 10 + m[i + 2] == s.reg(reg_x(op))
        }),
{
}

/// `8XY4` with `X != F`: the new `VX` and the carry in `VF` make up the full sum.
pub proof fn law_add_carry(s: MachineState, op: u16)
    requires
        s.wf(),
        family(op) == 0x8,
        nibble(op) == 0x4,
        reg_x(op) != 0xF,
    ensures
        ({
            let t = arithmetic(s, op)->0;
            &&& arithmetic(s, op) is Some
            &&& t.reg(reg_x(op)) + 256 * t.reg(0xF) == s.reg(reg_x(op)) + s.reg(reg_y(op))
        }),
{
}

/// `8XY5` with `X != F`: `VF` is 1 exactly when no borrow was needed, and
/// the new `VX` plus the borrow makes up the difference.
pub proof fn law_sub_borrow(s: MachineState, op: u16)
    requires
        s.wf(),
        family(op) == 0x8,
        nibble(op) == 0x5,
        reg_x(op) != 0xF,
    ensures
        ({
            let t = arithmetic(s, op)->0;
            &&& arithmetic(s, op) is Some
            &&& t.reg(reg_x(op)) == s.reg(reg_x(op)) - s.reg(reg_y(op)) + 256 * (1 - t.reg(0xF))
        }),
{
}

/// After every completed cycle the tone plays exactly while the sound timer
/// is nonzero; the host is told to start it only when it was silent and to
/// stop it only when it was playing.
pub proof fn law_tone_follows_sound_timer(s: MachineState, input: InputState, r: u8)
    requires
        step(s, input, r) is Ok,
    ensures
        ({
            let (t, report) = step(s, input, r)->Ok_0;
            &&& t.sound_playing == (t.cpu.sound_timer > 0)
            &&& (report.sound == Sound::Start <==> (!s.sound_playing && t.sound_playing))
            &&& (report.sound == Sound::Stop <==> (s.sound_playing && !t.sound_playing))
        }),
{
    let (t0, w) = execute(advance(s), fetch(s), input, r)->Ok_0;
    assert(t0.sound_playing == s.sound_playing) by {
        reveal_with_fuel(execute, 1);
    }
}

/// Outside `FX15` and `FX18` the timers never go up: a cycle leaves each
/// where it was, or one lower on a tick when it was above zero.
pub proof fn law_timers_count_down(s: MachineState, input: InputState, r: u8)
    requires
        step(s, input, r) is Ok,
        family(fetch(s)) != 0xF,
    ensures
        ({
            let t = step(s, input, r)->Ok_0.0;
            &&& t.cpu.delay_timer == if input.timer_tick && s.cpu.delay_timer > 0 {
                s.cpu.delay_timer - 1
            } else {
                s.cpu.delay_timer as int
            }
            &&& t.cpu.sound_timer == if input.timer_tick && s.cpu.sound_timer > 0 {
                s.cpu.sound_timer - 1
            } else {
                s.cpu.sound_timer as int
            }
        }),
{
}

/// `FX0A` blocks: a cycle that finds no key newly down leaves the program
/// counter on the same instruction and changes nothing else but the timers
/// and the tone.
pub proof fn law_wait_key_blocks(s: MachineState, input: InputState, r: u8)
    requires
        s.wf(),
        s.cpu.pc + 1 < MEMORY_SIZE,
        family(fetch(s)) == 0xF,
        low_byte(fetch(s)) == 0x0A,
        input.keys_pressed.len() == 0,
    ensures
        step(s, input, r) is Ok,
        step(s, input, r)->Ok_0.0.cpu.pc == s.cpu.pc,
        step(s, input, r)->Ok_0.0.cpu.v == s.cpu.v,
        step(s, input, r)->Ok_0.0.cpu.memory == s.cpu.memory,
        step(s, input, r)->Ok_0.0.display == s.display,
{
}

/// After the font is written, `FX29` for a digit `d <= 0xF` points `I` at
/// the five bytes of glyph `d`.
pub proof fn law_font_glyph_address(s: MachineState, op: u16, keys: InputState)
    requires
        s.wf(),
        family(op) == 0xF,
        low_byte(op) == 0x29,
        with_font(s).reg(reg_x(op)) <= 0xF,
    ensures
        ({
            let t = misc(with_font(s), op, keys)->Ok_0;
            let d = s.reg(reg_x(op)) as int;
            &&& misc(with_font(s), op, keys) is Ok
            &&& t.cpu.index == 5 * d
            &&& t.cpu.memory.subrange(5 * d, 5 * d + 5) == font().subrange(5 * d, 5 * d + 5)
        }),
{
    let t = misc(with_font(s), op, keys)->Ok_0;
    let d = s.reg(reg_x(op)) as int;
    assert(font().len() == 80);
    assert(t.cpu.memory.subrange(5 * d, 5 * d + 5) =~= font().subrange(5 * d, 5 * d + 5));
}

/// A program loaded into a freshly switched-on machine with its font is
/// read back from `PROGRAM_START`: the first opcode fetched is the program's
/// first two bytes.
pub proof fn law_first_fetch_reads_rom(rom: Seq<u8>)
    requires
        2 <= rom.len() <= MEMORY_SIZE - PROGRAM_START,
    ensures
        ({
            let s = with_rom(with_font(power_on()), rom);
            &&& s.cpu.pc == PROGRAM_START
            &&& fetch(s) == rom[0] * 256 + rom[1]
            &&& forall|i: int| 0 <= i < rom.len() ==> #[trigger] s.cpu.memory[PROGRAM_START + i] == rom[i]
        }),
{
    let s = with_rom(with_font(power_on()), rom);
    assert(s.cpu.memory[PROGRAM_START as int] == rom[0]);
    assert(s.cpu.memory[PROGRAM_START + 1] == rom[1]);
}

/// The sixteen keypad values name sixteen different host keys, and no
/// value above `0xF` names one.
pub proof fn law_keypad_keys_distinct(a: u8, b: u8)
    ensures
        keypad_key(a) is Some <==> a <= 0xF,
        a <= 0xF && b <= 0xF && a != b ==> keypad_key(a) != keypad_key(b),
{
}

/// Every instruction that completes without panicking keeps the machine's sizes: 4096 bytes of
/// memory, 16 registers, 2048 pixels.
pub proof fn law_execute_keeps_sizes(s: MachineState, op: u16, keys: InputState, r: u8)
    requires
        s.wf(),
        !execute_panics(s, op, keys),
        execute(s, op, keys, r) is Ok,
    ensures
        execute(s, op, keys, r)->Ok_0.0.wf(),
{
}

/// Position of a host key in the 4x4 block `1 2 3 4 / Q W E R / A S D F /
/// Z X C V`, row by row from 0; -1 for keys outside it.
pub open spec fn host_position(k: HostKey) -> int {
    match k {
        HostKey::Key1 => 0,
        HostKey::Key2 => 1,
        HostKey::Key3 => 2,
        HostKey::Key4 => 3,
        HostKey::Q => 4,
        HostKey::W => 5,
        HostKey::E => 6,
        HostKey::R => 7,
        HostKey::A => 8,
        HostKey::S => 9,
        HostKey::D => 10,
        HostKey::F => 11,
        HostKey::Z => 12,
        HostKey::X => 13,
        HostKey::C => 14,
        HostKey::V => 15,
        HostKey::Other => -1,
    }
}

/// Position of a digit on the hexadecimal keypad `1 2 3 C / 4 5 6 D /
/// 7 8 9 E / A 0 B F`, row by row from 0.
pub open spec fn pad_position(v: u8) -> int {
    if 1 <= v <= 3 {
        v - 1
    } else if 4 <= v <= 6 {
        v as int
    } else if 7 <= v <= 9 {
        v + 1
    } else if v == 0xA {
        12
    } else if v == 0 {
        13
    } else if v == 0xB {
        14
    } else {
        // C, D, E, F end the four rows
        (v - 0xC) * 4 + 3
    }
}

/// The key tests lay the keypad over the host block: digit `v` is looked up
/// as the host key at the same place, and only digits have a key.
pub proof fn law_keypad_layout(v: u8)
    ensures
        keypad_key(v) is Some <==> v <= 0xF,
        v <= 0xF ==> host_position(keypad_key(v)->0) == pad_position(v),
{
}

/// The key wait numbers the host block in reading order: the key at place
/// `p` gives `p + 1`, so the last key (`V`) and keys outside give nothing.
pub proof fn law_key_wait_numbering(k: HostKey)
    ensures
        0 <= host_position(k) < 15 <==> pressed_value(k) is Some,
        0 <= host_position(k) < 15 ==> pressed_value(k)->0 == host_position(k) + 1,
{
}

/// The font holds sixteen glyphs of five rows each; every row is four pixels
/// wide (the low nibble of each byte is dark) and no row is empty.
pub proof fn law_font_glyphs_four_wide()
    ensures
        font().len() == 80,
        forall|i: int| 0 <= i < 80 ==> #[trigger] font()[i] % 16 == 0 && font()[i] != 0,
{
}

} // verus!
