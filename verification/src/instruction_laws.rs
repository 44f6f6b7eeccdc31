//! What each instruction does, stated over the outcome of `execute` in terms
//! of the operands and the state before: sums, bits, which pixels change,
//! how far the program counter moves, and what stays as it was.

use vstd::prelude::*;
use crate::state::{Chip8Error, InputState, KeyWarning, MachineState, DISPLAY_SIZE, MEMORY_SIZE, PIXEL_ON};
use crate::keypad::{keypad_key, pressed_value};
use crate::semantics::{cycle_panics, execute, execute_panics, family, step, low_byte, nibble, reg_x, reg_y};
use crate::sprite::{lemma_pixel_roundtrip, lemma_pixel_unique};

verus! {

/// The machine after `op` completes.
pub open spec fn after(s: MachineState, op: u16, keys: InputState, r: u8) -> MachineState {
    execute(s, op, keys, r)->Ok_0.0
}

/// Bit `i` of `b` (0 = least significant).
pub open spec fn bit(b: u8, i: u8) -> bool {
    (b >> i) & 1u8 == 1u8
}

/// Display position of column `(vx + col) % 64` on line `(vy + row) % 32`.
pub open spec fn landing(vx: int, vy: int, row: int, col: int) -> int {
    ((vy + row) % 32) * 64 + (vx + col) % 64
}

/// Nothing but the program counter may differ.
pub open spec fn same_but_pc(s: MachineState, t: MachineState) -> bool {
    &&& t.cpu.memory == s.cpu.memory
    &&& t.cpu.stack == s.cpu.stack
    &&& t.cpu.v == s.cpu.v
    &&& t.cpu.index == s.cpu.index
    &&& t.cpu.delay_timer == s.cpu.delay_timer
    &&& t.cpu.sound_timer == s.cpu.sound_timer
    &&& t.display == s.display
    &&& t.sound_playing == s.sound_playing
}

/// Nothing but registers `a` and `b` may differ.
pub open spec fn same_but_registers(s: MachineState, t: MachineState, a: int, b: int) -> bool {
    &&& t.cpu.memory == s.cpu.memory
    &&& t.cpu.stack == s.cpu.stack
    &&& t.cpu.v.len() == s.cpu.v.len()
    &&& forall|k: int| 0 <= k < s.cpu.v.len() && k != a && k != b ==> #[trigger] t.cpu.v[k] == s.cpu.v[k]
    &&& t.cpu.index == s.cpu.index
    &&& t.cpu.pc == s.cpu.pc
    &&& t.cpu.delay_timer == s.cpu.delay_timer
    &&& t.cpu.sound_timer == s.cpu.sound_timer
    &&& t.display == s.display
    &&& t.sound_playing == s.sound_playing
}

/// `3XNN`, `4XNN`, `5XY?`, `9XY?`: the program counter moves on by 2 exactly
/// when the comparison holds (`==` for 3 and 5, `!=` for 4 and 9, against
/// `NN` for 3 and 4, against `VY` for 5 and 9), and by 0 otherwise; nothing
/// else changes.
#[verifier::rlimit(40)]
pub proof fn law_conditional_skips(s: MachineState, op: u16, keys: InputState, r: u8)
    requires
        s.wf(),
        family(op) == 0x3 || family(op) == 0x4 || family(op) == 0x5 || family(op) == 0x9,
        s.cpu.pc + 2 <= 0xFFFF,
    ensures
        !execute_panics(s, op, keys),
        execute(s, op, keys, r) is Ok,
        execute(s, op, keys, r)->Ok_0.1 is None,
        ({
            let t = after(s, op, keys, r);
            let vx = s.cpu.v[reg_x(op)];
            let other = if family(op) == 0x3 || family(op) == 0x4 {
                op as int % 256
            } else {
                s.cpu.v[reg_y(op)] as int
            };
            let equal = vx as int == other;
            let cond = if family(op) == 0x3 || family(op) == 0x5 { equal } else { !equal };
            &&& cond ==> t.cpu.pc == s.cpu.pc + 2
            &&& !cond ==> t.cpu.pc == s.cpu.pc
            &&& same_but_pc(s, t)
        }),
{
}

/// `8XY0`: `VX` becomes `VY`; nothing else changes.
pub proof fn law_copy_register(s: MachineState, op: u16, keys: InputState, r: u8)
    requires
        s.wf(),
        family(op) == 0x8,
        nibble(op) == 0x0,
    ensures
        !execute_panics(s, op, keys),
        execute(s, op, keys, r) is Ok,
        after(s, op, keys, r).cpu.v[reg_x(op)] == s.cpu.v[reg_y(op)],
        same_but_registers(s, after(s, op, keys, r), reg_x(op), reg_x(op)),
{
}

/// `8XY1`, `8XY2`, `8XY3` with `X != F`: every bit of the new `VX` is the
/// OR, the AND, the exclusive OR of the same bit of `VX` and `VY`; `VF` is 0;
/// no other register changes.
#[verifier::rlimit(40)]
pub proof fn law_bitwise_operations(s: MachineState, op: u16, keys: InputState, r: u8)
    requires
        s.wf(),
        family(op) == 0x8,
        1 <= nibble(op) <= 3,
        reg_x(op) != 0xF,
    ensures
        !execute_panics(s, op, keys),
        execute(s, op, keys, r) is Ok,
        ({
            let t = after(s, op, keys, r);
            let a = s.cpu.v[reg_x(op)];
            let b = s.cpu.v[reg_y(op)];
            let c = t.cpu.v[reg_x(op)];
            &&& forall|i: u8|
                i < 8 ==> #[trigger] bit(c, i) == if nibble(op) == 1 {
                    bit(a, i) || bit(b, i)
                } else if nibble(op) == 2 {
                    bit(a, i) && bit(b, i)
                } else {
                    bit(a, i) != bit(b, i)
                }
            &&& t.cpu.v[0xF] == 0
            &&& same_but_registers(s, t, reg_x(op), 0xF)
        }),
{
    let t = after(s, op, keys, r);
    let a = s.cpu.v[reg_x(op)];
    let b = s.cpu.v[reg_y(op)];
    let c = t.cpu.v[reg_x(op)];
    assert forall|i: u8| i < 8 implies #[trigger] bit(c, i) == if nibble(op) == 1 {
        bit(a, i) || bit(b, i)
    } else if nibble(op) == 2 {
        bit(a, i) && bit(b, i)
    } else {
        bit(a, i) != bit(b, i)
    } by {
        if nibble(op) == 1 {
            assert(c == a | b);
            assert(((a | b) >> i) & 1u8 == 1u8 <==> ((a >> i) & 1u8 == 1u8 || (b >> i) & 1u8
                == 1u8)) by (bit_vector)
                requires
                    i < 8,
            ;
        } else if nibble(op) == 2 {
            assert(c == a & b);
            assert(((a & b) >> i) & 1u8 == 1u8 <==> ((a >> i) & 1u8 == 1u8 && (b >> i) & 1u8
                == 1u8)) by (bit_vector)
                requires
                    i < 8,
            ;
        } else {
            assert(c == a ^ b);
            assert(((a ^ b) >> i) & 1u8 == 1u8 <==> ((a >> i) & 1u8 == 1u8) != ((b >> i) & 1u8
                == 1u8)) by (bit_vector)
                requires
                    i < 8,
            ;
        }
    }
}

/// `8XY4`, `8XY5`, `8XY7` with `X != F`: the new `VX` and the flag `VF`
/// (carry, resp. no-borrow, 0 or 1) together make up the exact sum or
/// difference; no other register changes.
#[verifier::rlimit(40)]
pub proof fn law_add_sub_flags(s: MachineState, op: u16, keys: InputState, r: u8)
    requires
        s.wf(),
        family(op) == 0x8,
        nibble(op) == 0x4 || nibble(op) == 0x5 || nibble(op) == 0x7,
        reg_x(op) != 0xF,
    ensures
        !execute_panics(s, op, keys),
        execute(s, op, keys, r) is Ok,
        ({
            let t = after(s, op, keys, r);
            let a = s.cpu.v[reg_x(op)] as int;
            let b = s.cpu.v[reg_y(op)] as int;
            let c = t.cpu.v[reg_x(op)] as int;
            let f = t.cpu.v[0xF] as int;
            &&& f == 0 || f == 1
            &&& nibble(op) == 0x4 ==> c + 256 * f == a + b
            &&& nibble(op) == 0x5 ==> c == a - b + 256 * (1 - f)
            &&& nibble(op) == 0x7 ==> c == b - a + 256 * (1 - f)
            &&& same_but_registers(s, t, reg_x(op), 0xF)
        }),
{
}

/// `8XY6`, `8XYE` with `X != F`: `VY` shifted right (left) by one bit lands
/// in `VX`, the bit shifted out lands in `VF`; no other register changes.
#[verifier::rlimit(40)]
pub proof fn law_shifts(s: MachineState, op: u16, keys: InputState, r: u8)
    requires
        s.wf(),
        family(op) == 0x8,
        nibble(op) == 0x6 || nibble(op) == 0xE,
        reg_x(op) != 0xF,
    ensures
        !execute_panics(s, op, keys),
        execute(s, op, keys, r) is Ok,
        ({
            let t = after(s, op, keys, r);
            let b = s.cpu.v[reg_y(op)] as int;
            let c = t.cpu.v[reg_x(op)] as int;
            let f = t.cpu.v[0xF] as int;
            &&& f == 0 || f == 1
            &&& nibble(op) == 0x6 ==> b == 2 * c + f
            &&& nibble(op) == 0xE ==> 2 * b == c + 256 * f
            &&& same_but_registers(s, t, reg_x(op), 0xF)
        }),
{
}

/// `8XY?` with a low nibble outside `0`-`7` and `E` is no instruction.
pub proof fn law_unknown_arithmetic(s: MachineState, op: u16, keys: InputState, r: u8)
    requires
        family(op) == 0x8,
        !(0 <= nibble(op) <= 7 || nibble(op) == 0xE),
    ensures
        execute(s, op, keys, r) == Err::<(MachineState, Option<KeyWarning>), Chip8Error>(
            Chip8Error::UnknownOpcode(op),
        ),
{
}

/// `EX9E` / `EXA1` with `VX <= 0xF`: the program counter moves on by 2
/// exactly when the host key for `VX` is held (`EX9E`) or is not held
/// (`EXA1`), else by 0; nothing else changes and nothing is reported.
pub proof fn law_key_skips(s: MachineState, op: u16, keys: InputState, r: u8)
    requires
        s.wf(),
        family(op) == 0xE,
        low_byte(op) == 0x9E || low_byte(op) == 0xA1,
        s.cpu.v[reg_x(op)] <= 0xF,
        s.cpu.pc + 2 <= 0xFFFF,
    ensures
        !execute_panics(s, op, keys),
        execute(s, op, keys, r) is Ok,
        execute(s, op, keys, r)->Ok_0.1 is None,
        ({
            let t = after(s, op, keys, r);
            let held = keys.keys_down.contains(keypad_key(s.cpu.v[reg_x(op)])->0);
            let cond = if low_byte(op) == 0x9E { held } else { !held };
            &&& cond ==> t.cpu.pc == s.cpu.pc + 2
            &&& !cond ==> t.cpu.pc == s.cpu.pc
            &&& same_but_pc(s, t)
        }),
{
}

/// `EX9E` / `EXA1` with `VX > 0xF`: no key is named; the machine is left as
/// it was and the opcode, `X` and `VX` are reported.
pub proof fn law_key_skip_without_key(s: MachineState, op: u16, keys: InputState, r: u8)
    requires
        s.wf(),
        family(op) == 0xE,
        low_byte(op) == 0x9E || low_byte(op) == 0xA1,
        s.cpu.v[reg_x(op)] > 0xF,
    ensures
        execute(s, op, keys, r) == Ok::<(MachineState, Option<KeyWarning>), Chip8Error>(
            (
                s,
                Some(
                    KeyWarning { opcode: op, register: reg_x(op) as u8, value: s.cpu.v[reg_x(op)] },
                ),
            ),
        ),
{
}

/// `FX1E`: `I` grows by `VX`, as integers; nothing else changes.
pub proof fn law_add_to_index(s: MachineState, op: u16, keys: InputState, r: u8)
    requires
        s.wf(),
        family(op) == 0xF,
        low_byte(op) == 0x1E,
        s.cpu.index + s.cpu.v[reg_x(op)] <= 0xFFFF,
    ensures
        !execute_panics(s, op, keys),
        execute(s, op, keys, r) is Ok,
        after(s, op, keys, r).cpu.index == s.cpu.index + s.cpu.v[reg_x(op)],
        after(s, op, keys, r).cpu.v == s.cpu.v,
        after(s, op, keys, r).cpu.memory == s.cpu.memory,
        after(s, op, keys, r).cpu.pc == s.cpu.pc,
{
}

/// `DXYN`: `VF` ends 1 exactly when some pixel that was lit is changed by
/// the drawing, and 0 otherwise, whatever it held before; every pixel is
/// either left alone or toggled.
pub proof fn law_draw_collision_flag(s: MachineState, op: u16, keys: InputState, r: u8)
    requires
        s.wf(),
        family(op) == 0xD,
    ensures
        execute(s, op, keys, r) is Ok,
        ({
            let t = after(s, op, keys, r);
            &&& t.cpu.v[0xF] == 1 <==> exists|p: int|
                0 <= p < DISPLAY_SIZE && s.display[p] != 0 && #[trigger] t.display[p] != s.display[p]
            &&& t.cpu.v[0xF] == 0 || t.cpu.v[0xF] == 1
            &&& forall|p: int|
                0 <= p < DISPLAY_SIZE ==> #[trigger] t.display[p] == s.display[p] || t.display[p]
                    == s.display[p] ^ PIXEL_ON
        }),
{
    let t = after(s, op, keys, r);
    assert forall|p: int| 0 <= p < DISPLAY_SIZE implies #[trigger] t.display[p] != s.display[p]
        <==> crate::semantics::covers(
        s.cpu.memory,
        s.cpu.index,
        s.cpu.v[reg_x(op)],
        s.cpu.v[reg_y(op)],
        nibble(op),
        p,
    ) by {
        let d = s.display[p];
        assert(d ^ PIXEL_ON != d) by (bit_vector);
    }
    if t.cpu.v[0xF] == 1 {
        let w = choose|p: int|
            0 <= p < DISPLAY_SIZE && #[trigger] crate::semantics::covers(
                s.cpu.memory,
                s.cpu.index,
                s.cpu.v[reg_x(op)],
                s.cpu.v[reg_y(op)],
                nibble(op),
                p,
            ) && s.display[p] != 0;
        assert(t.display[w] != s.display[w]);
    }
}

/// `DXYN`: sprite row `row < N` is byte `memory[I + row]`, its bit `7 - col`
/// is pixel `col`; that pixel lands at column `(VX + col) % 64` of line
/// `(VY + row) % 32` and is toggled there when the bit is 1, left alone when
/// it is 0. No other position changes.
pub proof fn law_draw_pixels(s: MachineState, op: u16, keys: InputState, r: u8)
    requires
        s.wf(),
        family(op) == 0xD,
    ensures
        nibble(op) == 0 || s.cpu.index + nibble(op) <= MEMORY_SIZE ==> !execute_panics(s, op, keys),
        execute(s, op, keys, r) is Ok,
        ({
            let t = after(s, op, keys, r);
            let vx = s.cpu.v[reg_x(op)] as int;
            let vy = s.cpu.v[reg_y(op)] as int;
            let n = nibble(op);
            &&& forall|row: int, col: int|
                0 <= row < n && 0 <= col < 8 ==> {
                    let p = landing(vx, vy, row, col);
                    let lit = (s.cpu.memory[s.cpu.index + row] >> ((7 - col) as u8)) & 1u8 == 1u8;
                    t.display[#[trigger] landing(vx, vy, row, col)] == if lit {
                        s.display[p] ^ PIXEL_ON
                    } else {
                        s.display[p]
                    }
                }
            &&& forall|p: int|
                0 <= p < DISPLAY_SIZE && #[trigger] t.display[p] != s.display[p] ==> exists|
                    row: int,
                    col: int,
                | 0 <= row < n && 0 <= col < 8 && p == #[trigger] landing(vx, vy, row, col)
            &&& forall|k: int| 0 <= k < 15 ==> #[trigger] t.cpu.v[k] == s.cpu.v[k]
            &&& t.cpu.memory == s.cpu.memory && t.cpu.index == s.cpu.index && t.cpu.pc == s.cpu.pc
            &&& t.cpu.stack == s.cpu.stack
        }),
{
    let t = after(s, op, keys, r);
    let vx = s.cpu.v[reg_x(op)];
    let vy = s.cpu.v[reg_y(op)];
    let n = nibble(op);
    assert forall|row: int, col: int| 0 <= row < n && 0 <= col < 8 implies {
        let p = landing(vx as int, vy as int, row, col);
        let lit = (s.cpu.memory[s.cpu.index + row] >> ((7 - col) as u8)) & 1u8 == 1u8;
        t.display[#[trigger] landing(vx as int, vy as int, row, col)] == if lit {
            s.display[p] ^ PIXEL_ON
        } else {
            s.display[p]
        }
    } by {
        lemma_pixel_roundtrip(vx, vy, row, col);
    }
    assert forall|p: int| 0 <= p < DISPLAY_SIZE && #[trigger] t.display[p] != s.display[p] implies exists|
        row: int,
        col: int,
    | 0 <= row < n && 0 <= col < 8 && p == #[trigger] landing(vx as int, vy as int, row, col) by {
        lemma_pixel_unique(vx, vy, p);
        let row = crate::semantics::sprite_row_at(vy, p);
        let col = crate::semantics::sprite_col_at(vx, p);
        assert(0 <= row < n && 0 <= col < 8 && p == landing(vx as int, vy as int, row, col));
    }
}

/// `00E0`: every pixel is dark afterwards; the processor is untouched.
pub proof fn law_clear_screen(s: MachineState, keys: InputState, r: u8)
    requires
        s.wf(),
    ensures
        !execute_panics(s, 0x00E0, keys),
        execute(s, 0x00E0, keys, r) is Ok,
        forall|p: int| 0 <= p < DISPLAY_SIZE ==> #[trigger] after(s, 0x00E0, keys, r).display[p] == 0,
        after(s, 0x00E0, keys, r).display.len() == DISPLAY_SIZE,
        after(s, 0x00E0, keys, r).cpu == s.cpu,
        after(s, 0x00E0, keys, r).sound_playing == s.sound_playing,
{
}

/// `00EE`: the program counter becomes the most recently saved address, which
/// leaves the saved addresses; putting it back gives the saved addresses as
/// they were.
pub proof fn law_return(s: MachineState, keys: InputState, r: u8)
    requires
        s.wf(),
        s.cpu.stack.len() > 0,
    ensures
        !execute_panics(s, 0x00EE, keys),
        execute(s, 0x00EE, keys, r) is Ok,
        ({
            let t = after(s, 0x00EE, keys, r);
            &&& t.cpu.pc == s.cpu.stack[s.cpu.stack.len() - 1]
            &&& t.cpu.stack.push(t.cpu.pc) == s.cpu.stack
            &&& t.cpu.v == s.cpu.v && t.cpu.memory == s.cpu.memory && t.cpu.index == s.cpu.index
            &&& t.display == s.display
        }),
{
    let t = after(s, 0x00EE, keys, r);
    assert(t.cpu.stack.push(t.cpu.pc) =~= s.cpu.stack);
}

/// `1NNN` continues at `op - 0x1000`; `2NNN` saves the program counter on top
/// of the saved addresses and continues at `op - 0x2000`; `BNNN` continues at
/// `op - 0xB000 + V0`. No register, memory or pixel changes.
pub proof fn law_jumps(s: MachineState, op: u16, keys: InputState, r: u8)
    requires
        s.wf(),
        family(op) == 0x1 || family(op) == 0x2 || family(op) == 0xB,
    ensures
        !execute_panics(s, op, keys),
        execute(s, op, keys, r) is Ok,
        ({
            let t = after(s, op, keys, r);
            &&& family(op) == 0x1 ==> t.cpu.pc == op - 0x1000 && t.cpu.stack == s.cpu.stack
            &&& family(op) == 0x2 ==> t.cpu.pc == op - 0x2000 && t.cpu.stack == s.cpu.stack.push(
                s.cpu.pc,
            )
            &&& family(op) == 0xB ==> t.cpu.pc == op - 0xB000 + s.cpu.v[0] && t.cpu.stack
                == s.cpu.stack
            &&& t.cpu.v == s.cpu.v && t.cpu.memory == s.cpu.memory && t.cpu.index == s.cpu.index
            &&& t.display == s.display
        }),
{
}

/// `6XNN` sets `VX` to the low byte of the opcode; `7XNN` adds it to `VX`
/// modulo 256 and leaves `VF` alone; `ANNN` sets `I` to `op - 0xA000`.
/// Nothing else changes.
pub proof fn law_loads_and_add(s: MachineState, op: u16, keys: InputState, r: u8)
    requires
        s.wf(),
        family(op) == 0x6 || family(op) == 0x7 || family(op) == 0xA,
    ensures
        !execute_panics(s, op, keys),
        execute(s, op, keys, r) is Ok,
        ({
            let t = after(s, op, keys, r);
            let x = reg_x(op);
            let nn = op as int - (op as int / 256) * 256;
            &&& family(op) == 0x6 ==> t.cpu.v[x] == nn && same_but_registers(s, t, x, x)
            &&& family(op) == 0x7 ==> (t.cpu.v[x] as int == s.cpu.v[x] + nn || t.cpu.v[x] as int
                == s.cpu.v[x] + nn - 256) && same_but_registers(s, t, x, x)
            &&& family(op) == 0xA ==> t.cpu.index == op - 0xA000 && t.cpu.v == s.cpu.v
                && t.cpu.pc == s.cpu.pc && t.cpu.memory == s.cpu.memory && t.display == s.display
        }),
{
}

/// `CXNN`: every bit of the new `VX` is set exactly when it is set both in
/// the random byte `r` and in `NN`; nothing else changes.
pub proof fn law_random(s: MachineState, op: u16, keys: InputState, r: u8)
    requires
        s.wf(),
        family(op) == 0xC,
    ensures
        !execute_panics(s, op, keys),
        execute(s, op, keys, r) is Ok,
        ({
            let t = after(s, op, keys, r);
            let nn = (op as int % 256) as u8;
            &&& forall|i: u8| i < 8 ==> #[trigger] bit(t.cpu.v[reg_x(op)], i) == (bit(r, i) && bit(nn, i))
            &&& same_but_registers(s, t, reg_x(op), reg_x(op))
        }),
{
    let t = after(s, op, keys, r);
    let nn = (op as int % 256) as u8;
    let c = t.cpu.v[reg_x(op)];
    assert(c == r & nn);
    assert forall|i: u8| i < 8 implies #[trigger] bit(c, i) == (bit(r, i) && bit(nn, i)) by {
        assert(((r & nn) >> i) & 1u8 == 1u8 <==> ((r >> i) & 1u8 == 1u8 && (nn >> i) & 1u8
            == 1u8)) by (bit_vector)
            requires
                i < 8,
        ;
    }
}

/// `FX07` copies the delay timer into `VX`; `FX15` sets the delay timer to
/// `VX`; `FX18` sets the sound timer to `VX`; `FX29` sets `I` to `5 * VX`,
/// where the font glyph for digit `VX` starts. Nothing else changes.
pub proof fn law_timers_and_font(s: MachineState, op: u16, keys: InputState, r: u8)
    requires
        s.wf(),
        family(op) == 0xF,
        low_byte(op) == 0x07 || low_byte(op) == 0x15 || low_byte(op) == 0x18 || low_byte(op)
            == 0x29,
        low_byte(op) == 0x29 ==> s.cpu.v[reg_x(op)] * 5 <= 0xFF,
    ensures
        !execute_panics(s, op, keys),
        execute(s, op, keys, r) is Ok,
        ({
            let t = after(s, op, keys, r);
            let x = reg_x(op);
            let k = low_byte(op);
            &&& k == 0x07 ==> t.cpu.v[x] == s.cpu.delay_timer && same_but_registers(s, t, x, x)
            &&& k == 0x15 ==> t.cpu.delay_timer == s.cpu.v[x] && t.cpu.v == s.cpu.v
                && t.cpu.sound_timer == s.cpu.sound_timer && t.cpu.pc == s.cpu.pc
            &&& k == 0x18 ==> t.cpu.sound_timer == s.cpu.v[x] && t.cpu.v == s.cpu.v
                && t.cpu.delay_timer == s.cpu.delay_timer && t.cpu.pc == s.cpu.pc
            &&& k == 0x29 ==> t.cpu.index == 5 * s.cpu.v[x] && t.cpu.v == s.cpu.v && t.cpu.pc
                == s.cpu.pc && t.cpu.memory == s.cpu.memory
        }),
{
}

/// `FX0A`: with no key newly down the program counter goes back 2 (the
/// instruction runs again) and nothing else changes; otherwise the first
/// key that went down decides: its digit lands in `VX`, or the run stops
/// with `InvalidKey` when it stands for none.
pub proof fn law_wait_key(s: MachineState, op: u16, keys: InputState, r: u8)
    requires
        s.wf(),
        family(op) == 0xF,
        low_byte(op) == 0x0A,
        s.cpu.pc >= 2,
    ensures
        !execute_panics(s, op, keys),
        keys.keys_pressed.len() == 0 ==> execute(s, op, keys, r) is Ok && after(
            s,
            op,
            keys,
            r,
        ).cpu.pc == s.cpu.pc - 2 && same_but_pc(s, after(s, op, keys, r)),
        keys.keys_pressed.len() > 0 && pressed_value(keys.keys_pressed[0]) is Some ==> execute(
            s,
            op,
            keys,
            r,
        ) is Ok && after(s, op, keys, r).cpu.v[reg_x(op)] == pressed_value(keys.keys_pressed[0])->0
            && same_but_registers(s, after(s, op, keys, r), reg_x(op), reg_x(op)),
        keys.keys_pressed.len() > 0 && pressed_value(keys.keys_pressed[0]) is None ==> execute(
            s,
            op,
            keys,
            r,
        ) == Err::<(MachineState, Option<KeyWarning>), Chip8Error>(
            Chip8Error::InvalidKey(keys.keys_pressed[0]),
        ),
{
}

/// `FX33`: `I`, `I + 1`, `I + 2` receive digits (each below 10) that read as
/// `VX` in decimal; no other byte, and no register, changes.
pub proof fn law_decimal_digits(s: MachineState, op: u16, keys: InputState, r: u8)
    requires
        s.wf(),
        family(op) == 0xF,
        low_byte(op) == 0x33,
        s.cpu.index + 2 < MEMORY_SIZE,
    ensures
        !execute_panics(s, op, keys),
        execute(s, op, keys, r) is Ok,
        ({
            let t = after(s, op, keys, r);
            let m = t.cpu.memory;
            let i = s.cpu.index as int;
            &&& m[i] < 10 && m[i + 1] < 10 && m[i + 2] < 10
            &&& m[i] * 100 + m[i + 1] * 10 + m[i + 2] == s.cpu.v[reg_x(op)]
            &&& m.len() == s.cpu.memory.len()
            &&& forall|a: int|
                0 <= a < MEMORY_SIZE && !(i <= a <= i + 2) ==> #[trigger] m[a] == s.cpu.memory[a]
            &&& t.cpu.v == s.cpu.v && t.cpu.index == s.cpu.index && t.cpu.pc == s.cpu.pc
        }),
{
}

/// `FX55` puts `V0..=VX` at `I..=I+X` and changes no other byte; `FX65` puts
/// the bytes at `I..=I+X` into `V0..=VX` and changes no other register.
/// Neither moves `I`.
pub proof fn law_register_transfer(s: MachineState, op: u16, keys: InputState, r: u8)
    requires
        s.wf(),
        family(op) == 0xF,
        low_byte(op) == 0x55 || low_byte(op) == 0x65,
        s.cpu.index + reg_x(op) < MEMORY_SIZE,
    ensures
        !execute_panics(s, op, keys),
        execute(s, op, keys, r) is Ok,
        ({
            let t = after(s, op, keys, r);
            let i = s.cpu.index as int;
            let x = reg_x(op);
            &&& low_byte(op) == 0x55 ==> {
                &&& forall|k: int| 0 <= k <= x ==> #[trigger] t.cpu.memory[i + k] == s.cpu.v[k]
                &&& forall|a: int|
                    0 <= a < MEMORY_SIZE && !(i <= a <= i + x) ==> #[trigger] t.cpu.memory[a]
                        == s.cpu.memory[a]
                &&& t.cpu.memory.len() == s.cpu.memory.len()
                &&& t.cpu.v == s.cpu.v
            }
            &&& low_byte(op) == 0x65 ==> {
                &&& forall|k: int| 0 <= k <= x ==> #[trigger] t.cpu.v[k] == s.cpu.memory[i + k]
                &&& forall|k: int| x < k < 16 ==> #[trigger] t.cpu.v[k] == s.cpu.v[k]
                &&& t.cpu.v.len() == s.cpu.v.len()
                &&& t.cpu.memory == s.cpu.memory
            }
            &&& t.cpu.index == s.cpu.index && t.cpu.pc == s.cpu.pc && t.display == s.display
        }),
{
}

/// Opcodes that are no instruction: `0NNN` other than `00E0` and `00EE`,
/// `EX??` other than `EX9E` and `EXA1`, `FX??` other than the nine above.
pub proof fn law_unknown_opcodes(s: MachineState, op: u16, keys: InputState, r: u8)
    requires
        (family(op) == 0x0 && op != 0x00E0 && op != 0x00EE) || (family(op) == 0xE && low_byte(op)
            != 0x9E && low_byte(op) != 0xA1) || (family(op) == 0xF && low_byte(op) != 0x07
            && low_byte(op) != 0x0A && low_byte(op) != 0x15 && low_byte(op) != 0x18 && low_byte(op)
            != 0x1E && low_byte(op) != 0x29 && low_byte(op) != 0x33 && low_byte(op) != 0x55
            && low_byte(op) != 0x65),
    ensures
        execute(s, op, keys, r) == Err::<(MachineState, Option<KeyWarning>), Chip8Error>(
            Chip8Error::UnknownOpcode(op),
        ),
{
}

/// A cycle reads the opcode big-endian at the program counter: when the byte
/// there is `0x6X` and the next one `NN`, the cycle leaves `NN` in `VX` and
/// the program counter 2 further on.
pub proof fn law_cycle_reads_opcode(s: MachineState, input: InputState, r: u8)
    requires
        s.wf(),
        s.cpu.pc + 1 < MEMORY_SIZE,
        s.cpu.memory[s.cpu.pc as int] / 16 == 6,
    ensures
        step(s, input, r) is Ok,
        step(s, input, r)->Ok_0.0.cpu.v[s.cpu.memory[s.cpu.pc as int] as int % 16] == s.cpu.memory[s.cpu.pc
            + 1],
        step(s, input, r)->Ok_0.0.cpu.pc == s.cpu.pc + 2,
{
    let hi = s.cpu.memory[s.cpu.pc as int];
    let lo = s.cpu.memory[s.cpu.pc + 1];
    let op = crate::semantics::fetch(s);
    assert(op == hi * 256 + lo);
    assert(family(op) == 6);
    assert(reg_x(op) == hi % 16);
    assert(low_byte(op) == lo);
}

/// A cycle whose instruction neither jumps, calls, returns, skips nor waits
/// for a key leaves the program counter just past that instruction.
pub proof fn law_cycle_moves_past_instruction(s: MachineState, input: InputState, r: u8)
    requires
        s.wf(),
        !cycle_panics(s, input),
        step(s, input, r) is Ok,
        ({
            let f = family(crate::semantics::fetch(s));
            f == 0x6 || f == 0x7 || f == 0x8 || f == 0xA || f == 0xC || f == 0xD || (f == 0xF
                && low_byte(crate::semantics::fetch(s)) != 0x0A)
        }),
    ensures
        step(s, input, r)->Ok_0.0.cpu.pc == s.cpu.pc + 2,
{
}

} // verus!
