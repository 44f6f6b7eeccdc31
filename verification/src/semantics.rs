//! The instruction set as functions on `MachineState`.
//!
//! Opcode fields are written arithmetically (`op / 0x100 % 0x10` for `X`);
//! the executable decoder works with masks and shifts and is proved to agree.

use vstd::prelude::*;
use crate::state::{
    HostKey, Chip8Error, CpuState, InputState, KeyWarning, MachineState, Sound, CycleReport, DISPLAY_SIZE,
    MEMORY_SIZE, PIXEL_ON, PROGRAM_START, REGISTER_COUNT,
};
use crate::keypad::{keypad_key, pressed_value};

verus! {

/// The opcode's high nibble: the instruction family.
pub open spec fn family(op: u16) -> int {
    op as int / 0x1000
}

/// Register operand `X` (second nibble).
pub open spec fn reg_x(op: u16) -> int {
    (op as int / 0x100) % 0x10
}

/// Register operand `Y` (third nibble).
pub open spec fn reg_y(op: u16) -> int {
    (op as int / 0x10) % 0x10
}

/// Low nibble `N`.
pub open spec fn nibble(op: u16) -> int {
    op as int % 0x10
}

/// Low byte `NN`.
pub open spec fn low_byte(op: u16) -> u8 {
    (op as int % 0x100) as u8
}

/// Address operand `NNN`.
pub open spec fn address(op: u16) -> int {
    op as int % 0x1000
}

/// The sixteen font glyphs, five bytes each, for digits `0`..`F`.
pub open spec fn font() -> Seq<u8> {
    seq![
        0xF0u8, 0x90, 0x90, 0x90, 0xF0,
        0x20, 0x60, 0x20, 0x20, 0x70,
        0xF0, 0x10, 0xF0, 0x80, 0xF0,
        0xF0, 0x10, 0xF0, 0x10, 0xF0,
        0x90, 0x90, 0xF0, 0x10, 0x10,
        0xF0, 0x80, 0xF0, 0x10, 0xF0,
        0xF0, 0x80, 0xF0, 0x90, 0xF0,
        0xF0, 0x10, 0x20, 0x40, 0x40,
        0xF0, 0x90, 0xF0, 0x90, 0xF0,
        0xF0, 0x90, 0xF0, 0x10, 0xF0,
        0xF0, 0x90, 0xF0, 0x90, 0x90,
        0xE0, 0x90, 0xE0, 0x90, 0xE0,
        0xF0, 0x80, 0x80, 0x80, 0xF0,
        0xE0, 0x90, 0x90, 0x90, 0xE0,
        0xF0, 0x80, 0xF0, 0x80, 0xF0,
        0xF0, 0x80, 0xF0, 0x80, 0x80
    ]
}

/// The machine when it is switched on: everything zero, no return addresses,
/// execution starting at `PROGRAM_START`, no tone.
pub open spec fn power_on() -> MachineState {
    MachineState {
        cpu: CpuState {
            memory: Seq::new(MEMORY_SIZE as nat, |i: int| 0u8),
            stack: Seq::empty(),
            v: Seq::new(REGISTER_COUNT as nat, |i: int| 0u8),
            delay_timer: 0,
            sound_timer: 0,
            index: 0,
            pc: PROGRAM_START,
        },
        display: Seq::new(DISPLAY_SIZE as nat, |i: int| 0u32),
        sound_playing: false,
    }
}

/// Memory with the font written at address 0.
pub open spec fn with_font(s: MachineState) -> MachineState {
    s.with_memory(Seq::new(
        s.cpu.memory.len(),
        |i: int| if i < font().len() { font()[i] } else { s.cpu.memory[i] },
    ))
}

/// Memory with `rom` written from `PROGRAM_START` on.
pub open spec fn with_rom(s: MachineState, rom: Seq<u8>) -> MachineState {
    s.with_memory(Seq::new(
        s.cpu.memory.len(),
        |i: int|
            if PROGRAM_START <= i < PROGRAM_START + rom.len() {
                rom[i - PROGRAM_START]
            } else {
                s.cpu.memory[i]
            },
    ))
}

/// `00E0`: every pixel off.
pub open spec fn clear_display(s: MachineState) -> MachineState {
    s.with_display(Seq::new(DISPLAY_SIZE as nat, |i: int| 0u32))
}

/// `00EE`: continue at the most recently saved return address.
pub open spec fn return_from_call(s: MachineState) -> MachineState {
    s.with_pc(s.cpu.stack.last() as int).with_stack(s.cpu.stack.drop_last())
}

/// `1NNN`: continue at `NNN`.
pub open spec fn jump(s: MachineState, op: u16) -> MachineState {
    s.with_pc(address(op))
}

/// `2NNN`: save the program counter, continue at `NNN`.
pub open spec fn call(s: MachineState, op: u16) -> MachineState {
    s.with_stack(s.cpu.stack.push(s.cpu.pc)).with_pc(address(op))
}

/// `3XNN`: skip the next instruction when `VX == NN`.
pub open spec fn skip_eq_byte(s: MachineState, op: u16) -> MachineState {
    s.skip_if(s.reg(reg_x(op)) == low_byte(op))
}

/// `4XNN`: skip the next instruction when `VX != NN`.
pub open spec fn skip_ne_byte(s: MachineState, op: u16) -> MachineState {
    s.skip_if(s.reg(reg_x(op)) != low_byte(op))
}

/// `5XY?`: skip the next instruction when `VX == VY`.
pub open spec fn skip_eq_reg(s: MachineState, op: u16) -> MachineState {
    s.skip_if(s.reg(reg_x(op)) == s.reg(reg_y(op)))
}

/// `9XY?`: skip the next instruction when `VX != VY`.
pub open spec fn skip_ne_reg(s: MachineState, op: u16) -> MachineState {
    s.skip_if(s.reg(reg_x(op)) != s.reg(reg_y(op)))
}

/// `6XNN`: `VX = NN`.
pub open spec fn load_byte(s: MachineState, op: u16) -> MachineState {
    s.with_reg(reg_x(op), low_byte(op))
}

/// `7XNN`: `VX = VX + NN` modulo 256, `VF` untouched.
pub open spec fn add_byte(s: MachineState, op: u16) -> MachineState {
    s.with_reg(reg_x(op), ((s.reg(reg_x(op)) + low_byte(op)) % 256) as u8)
}

/// `8XY?` on operands `vx`, `vy`: the new `VX` and the new `VF`
/// (`None`: `VF` untouched), or `None` for an unknown low nibble.
pub open spec fn alu(kind: int, vx: u8, vy: u8) -> Option<(u8, Option<u8>)> {
    if kind == 0x0 {
        Some((vy, None))
    } else if kind == 0x1 {
        Some((vx | vy, Some(0u8)))
    } else if kind == 0x2 {
        Some((vx & vy, Some(0u8)))
    } else if kind == 0x3 {
        Some((vx ^ vy, Some(0u8)))
    } else if kind == 0x4 {
        Some((((vx + vy) % 256) as u8, Some(if vx + vy > 255 { 1u8 } else { 0u8 })))
    } else if kind == 0x5 {
        Some((((vx - vy) % 256) as u8, Some(if vx >= vy { 1u8 } else { 0u8 })))
    } else if kind == 0x6 {
        Some(((vy / 2) as u8, Some((vy % 2) as u8)))
    } else if kind == 0x7 {
        Some((((vy - vx) % 256) as u8, Some(if vy >= vx { 1u8 } else { 0u8 })))
    } else if kind == 0xE {
        Some((((vy * 2) % 256) as u8, Some((vy / 128) as u8)))
    } else {
        None
    }
}

/// `8XY?`: `VX` is written first, then `VF`, so a flag wins over a result in `VF`.
pub open spec fn arithmetic(s: MachineState, op: u16) -> Option<MachineState> {
    match alu(nibble(op), s.reg(reg_x(op)), s.reg(reg_y(op))) {
        None => None,
        Some((r, None)) => Some(s.with_reg(reg_x(op), r)),
        Some((r, Some(f))) => Some(s.with_reg(reg_x(op), r).with_reg(0xF, f)),
    }
}

/// `ANNN`: `I = NNN`.
pub open spec fn load_index(s: MachineState, op: u16) -> MachineState {
    s.with_index(address(op))
}

/// `BNNN`: continue at `NNN + V0`.
pub open spec fn jump_offset(s: MachineState, op: u16) -> MachineState {
    s.with_pc(address(op) + s.reg(0))
}

/// `CXNN` when the random byte drawn is `r`: `VX = r & NN`.
pub open spec fn random_masked(s: MachineState, op: u16, r: u8) -> MachineState {
    s.with_reg(reg_x(op), r & low_byte(op))
}

/// Bit `col` of a sprite row, counted from the most significant bit.
pub open spec fn sprite_bit(row_byte: u8, col: int) -> bool {
    (row_byte >> ((7 - col) as u8)) & 1u8 == 1u8
}

/// Buffer position of sprite pixel (`row`, `col`) drawn at (`vx`, `vy`),
/// wrapping around both edges.
pub open spec fn pixel_index(vx: u8, vy: u8, row: int, col: int) -> int {
    ((vy + row) % 32) * 64 + (vx + col) % 64
}

/// Sprite row that lands on buffer position `p` when drawn at height `vy`.
pub open spec fn sprite_row_at(vy: u8, p: int) -> int {
    (p / 64 - vy) % 32
}

/// Sprite column that lands on buffer position `p` when drawn at `vx`.
pub open spec fn sprite_col_at(vx: u8, p: int) -> int {
    (p % 64 - vx) % 64
}

/// Whether a lit pixel of the `n`-row sprite at `memory[index..]`, drawn at
/// (`vx`, `vy`), lands on buffer position `p`.
pub open spec fn covers(memory: Seq<u8>, index: u16, vx: u8, vy: u8, n: int, p: int) -> bool {
    let row = sprite_row_at(vy, p);
    let col = sprite_col_at(vx, p);
    &&& row < n
    &&& col < 8
    &&& sprite_bit(memory[index + row], col)
}

/// `DXYN`: toggle every pixel that the sprite covers; `VF` is 1 when a
/// covered pixel was lit before, else 0.
pub open spec fn draw(s: MachineState, op: u16) -> MachineState {
    let vx = s.reg(reg_x(op));
    let vy = s.reg(reg_y(op));
    let n = nibble(op);
    let d = s.display;
    let hit = exists|p: int|
        0 <= p < DISPLAY_SIZE && #[trigger] covers(s.cpu.memory, s.cpu.index, vx, vy, n, p)
            && d[p] != 0;
    s.with_display(
        Seq::new(
            DISPLAY_SIZE as nat,
            |p: int|
                if covers(s.cpu.memory, s.cpu.index, vx, vy, n, p) {
                    d[p] ^ PIXEL_ON
                } else {
                    d[p]
                },
        ),
    ).with_reg(0xF, if hit { 1u8 } else { 0u8 })
}

/// `EX9E` (`down == true`) and `EXA1` (`down == false`): skip when the key
/// for `VX` is (not) held; a `VX` above `0xF` names no key and only warns.
pub open spec fn key_skip(s: MachineState, op: u16, keys_down: Seq<HostKey>, down: bool) -> (
    MachineState,
    Option<KeyWarning>,
) {
    let value = s.reg(reg_x(op));
    match keypad_key(value) {
        None => (s, Some(KeyWarning { opcode: op, register: reg_x(op) as u8, value: value })),
        Some(k) => (s.skip_if(keys_down.contains(k) == down), None),
    }
}

/// `FX0A`: with no key newly down, repeat this instruction; else store the
/// value of the first key that went down, or fail when it stands for none.
pub open spec fn wait_key(s: MachineState, op: u16, keys: InputState) -> Result<
    MachineState,
    Chip8Error,
> {
    if keys.keys_pressed.len() == 0 {
        Ok(s.with_pc(s.cpu.pc - 2))
    } else {
        match pressed_value(keys.keys_pressed[0]) {
            Some(h) => Ok(s.with_reg(reg_x(op), h)),
            None => Err(Chip8Error::InvalidKey(keys.keys_pressed[0])),
        }
    }
}

/// `FX33`: the decimal digits of `VX` at `I`, `I + 1`, `I + 2`.
pub open spec fn store_bcd(s: MachineState, op: u16) -> MachineState {
    let vx = s.reg(reg_x(op));
    let i = s.cpu.index as int;
    s.with_memory(
        s.cpu.memory.update(i, vx / 100).update(i + 1, (vx / 10) % 10).update(i + 2, vx % 10),
    )
}

/// `FX55`: `memory[I + k] = Vk` for `k <= X`; `I` unchanged.
pub open spec fn store_registers(s: MachineState, op: u16) -> MachineState {
    let x = reg_x(op);
    let i = s.cpu.index as int;
    s.with_memory(
        Seq::new(
            s.cpu.memory.len(),
            |a: int|
                if i <= a <= i + x {
                    s.reg(a - i)
                } else {
                    s.cpu.memory[a]
                },
        ),
    )
}

/// `FX65`: `Vk = memory[I + k]` for `k <= X`; `I` unchanged.
pub open spec fn load_registers(s: MachineState, op: u16) -> MachineState {
    let x = reg_x(op);
    let i = s.cpu.index as int;
    s.with_registers(
        Seq::new(
            s.cpu.v.len(),
            |k: int|
                if k <= x {
                    s.cpu.memory[i + k]
                } else {
                    s.reg(k)
                },
        ),
    )
}

/// The `FX??` instructions.
pub open spec fn misc(s: MachineState, op: u16, keys: InputState) -> Result<
    MachineState,
    Chip8Error,
> {
    let x = reg_x(op);
    let kind = low_byte(op);
    if kind == 0x07 {
        Ok(s.with_reg(x, s.cpu.delay_timer))
    } else if kind == 0x0A {
        wait_key(s, op, keys)
    } else if kind == 0x15 {
        Ok(s.with_delay(s.reg(x)))
    } else if kind == 0x18 {
        Ok(s.with_sound_timer(s.reg(x)))
    } else if kind == 0x1E {
        Ok(s.with_index(s.cpu.index + s.reg(x)))
    } else if kind == 0x29 {
        Ok(s.with_index(s.reg(x) * 5))
    } else if kind == 0x33 {
        Ok(store_bcd(s, op))
    } else if kind == 0x55 {
        Ok(store_registers(s, op))
    } else if kind == 0x65 {
        Ok(load_registers(s, op))
    } else {
        Err(Chip8Error::UnknownOpcode(op))
    }
}

/// Executing `op` in state `s`, with the keys as `keys` and `r` as the byte
/// that `CXNN` draws (no other instruction reads it). An error leaves the
/// machine as it was.
pub open spec fn execute(s: MachineState, op: u16, keys: InputState, r: u8) -> Result<
    (MachineState, Option<KeyWarning>),
    Chip8Error,
> {
    let f = family(op);
    if op == 0x00E0 {
        Ok((clear_display(s), None))
    } else if op == 0x00EE {
        Ok((return_from_call(s), None))
    } else if f == 0x0 {
        Err(Chip8Error::UnknownOpcode(op))
    } else if f == 0x1 {
        Ok((jump(s, op), None))
    } else if f == 0x2 {
        Ok((call(s, op), None))
    } else if f == 0x3 {
        Ok((skip_eq_byte(s, op), None))
    } else if f == 0x4 {
        Ok((skip_ne_byte(s, op), None))
    } else if f == 0x5 {
        Ok((skip_eq_reg(s, op), None))
    } else if f == 0x6 {
        Ok((load_byte(s, op), None))
    } else if f == 0x7 {
        Ok((add_byte(s, op), None))
    } else if f == 0x8 {
        match arithmetic(s, op) {
            Some(t) => Ok((t, None)),
            None => Err(Chip8Error::UnknownOpcode(op)),
        }
    } else if f == 0x9 {
        Ok((skip_ne_reg(s, op), None))
    } else if f == 0xA {
        Ok((load_index(s, op), None))
    } else if f == 0xB {
        Ok((jump_offset(s, op), None))
    } else if f == 0xC {
        Ok((random_masked(s, op, r), None))
    } else if f == 0xD {
        Ok((draw(s, op), None))
    } else if f == 0xE {
        if low_byte(op) == 0x9E {
            Ok(key_skip(s, op, keys.keys_down, true))
        } else if low_byte(op) == 0xA1 {
            Ok(key_skip(s, op, keys.keys_down, false))
        } else {
            Err(Chip8Error::UnknownOpcode(op))
        }
    } else {
        match misc(s, op, keys) {
            Ok(t) => Ok((t, None)),
            Err(e) => Err(e),
        }
    }
}

/// A skip by two from `pc` would overflow the 16-bit program counter.
pub open spec fn skip_overflows(s: MachineState, cond: bool) -> bool {
    cond && s.cpu.pc + 2 > u16::MAX
}

/// The inputs on which executing `op` would stop the program with a panic:
/// a return with no saved address, a memory access past the end of memory,
/// or an overflowing 16-bit or 8-bit computation.
pub open spec fn execute_panics(s: MachineState, op: u16, keys: InputState) -> bool {
    let f = family(op);
    let x = reg_x(op);
    let vx = s.reg(x);
    let i = s.cpu.index as int;
    if op == 0x00EE {
        s.cpu.stack.len() == 0
    } else if f == 0x3 {
        skip_overflows(s, vx == low_byte(op))
    } else if f == 0x4 {
        skip_overflows(s, vx != low_byte(op))
    } else if f == 0x5 {
        skip_overflows(s, vx == s.reg(reg_y(op)))
    } else if f == 0x9 {
        skip_overflows(s, vx != s.reg(reg_y(op)))
    } else if f == 0xD {
        nibble(op) > 0 && i + nibble(op) > MEMORY_SIZE
    } else if f == 0xE {
        &&& low_byte(op) == 0x9E || low_byte(op) == 0xA1
        &&& match keypad_key(vx) {
            Some(k) => skip_overflows(s, keys.keys_down.contains(k) == (low_byte(op) == 0x9E)),
            None => false,
        }
    } else if f == 0xF {
        let kind = low_byte(op);
        if kind == 0x0A {
            keys.keys_pressed.len() == 0 && s.cpu.pc < 2
        } else if kind == 0x1E {
            i + vx > u16::MAX
        } else if kind == 0x29 {
            vx * 5 > u8::MAX
        } else if kind == 0x33 {
            i + 2 >= MEMORY_SIZE
        } else if kind == 0x55 || kind == 0x65 {
            i + x >= MEMORY_SIZE
        } else {
            false
        }
    } else {
        false
    }
}

/// The opcode at the program counter, big-endian.
pub open spec fn fetch(s: MachineState) -> u16 {
    (s.cpu.memory[s.cpu.pc as int] * 256 + s.cpu.memory[s.cpu.pc + 1]) as u16
}

/// The state once the opcode has been read and the program counter moved past it.
pub open spec fn advance(s: MachineState) -> MachineState {
    s.with_pc(s.cpu.pc + 2)
}

/// A cycle panics when the opcode lies past the end of memory or its execution panics.
pub open spec fn cycle_panics(s: MachineState, input: InputState) -> bool {
    s.cpu.pc + 1 >= MEMORY_SIZE || execute_panics(advance(s), fetch(s), input)
}

/// On a timer tick each nonzero timer goes down by one.
pub open spec fn tick_timers(s: MachineState, tick: bool) -> MachineState {
    if tick {
        s.with_delay(
            if s.cpu.delay_timer > 0 {
                (s.cpu.delay_timer - 1) as u8
            } else {
                0u8
            },
        ).with_sound_timer(
            if s.cpu.sound_timer > 0 {
                (s.cpu.sound_timer - 1) as u8
            } else {
                0u8
            },
        )
    } else {
        s
    }
}

/// The tone plays exactly while the sound timer is nonzero: start it when it
/// should play and does not, stop it when it plays and should not.
pub open spec fn sound_command(s: MachineState) -> Sound {
    if s.cpu.sound_timer > 0 {
        if s.sound_playing {
            Sound::Unchanged
        } else {
            Sound::Start
        }
    } else {
        if s.sound_playing {
            Sound::Stop
        } else {
            Sound::Unchanged
        }
    }
}

/// One cycle: fetch, execute, tick the timers, update the tone. An error
/// stops the cycle right after the program counter moved.
pub open spec fn step(s: MachineState, input: InputState, r: u8) -> Result<
    (MachineState, CycleReport),
    Chip8Error,
> {
    match execute(advance(s), fetch(s), input, r) {
        Err(e) => Err(e),
        Ok((t, warning)) => {
            let t2 = tick_timers(t, input.timer_tick);
            Ok(
                (
                    t2.with_sound_playing(t2.cpu.sound_timer > 0),
                    CycleReport { sound: sound_command(t2), key_warning: warning },
                ),
            )
        },
    }
}

} // verus!
