//! One method per instruction.

use vstd::prelude::*;
use crate::machine::Machine;
use crate::state::{Chip8Error, HostKey, Input, KeyWarning, DISPLAY_SIZE, MEMORY_SIZE, PIXEL_ON};
use crate::semantics::{
    add_byte, arithmetic, call, clear_display, covers, draw, jump, jump_offset, key_skip,
    load_byte, load_index, low_byte, misc, nibble, pixel_index, random_masked, reg_x, reg_y,
    return_from_call, skip_eq_byte, skip_eq_reg, skip_ne_byte, skip_ne_reg, skip_overflows,
    sprite_bit, store_bcd, store_registers, load_registers, family, execute_panics, execute,
};
use crate::random::random_byte;
use crate::sprite::{
    covers_before, hit_before, lemma_covers_all, lemma_covers_row_end, lemma_covers_step,
    lemma_hit_row_end,
};
use crate::keypad::{key_is_down, keypad_host_key, keypad_key, pressed_key_value};
use crate::decode::{opcode_family, opcode_n, opcode_nn, opcode_nnn, opcode_x, opcode_y};

verus! {

impl Machine {
    /// Whether executing `opcode` with the program counter at `pc` would
    /// panic (see `execute_panics`).
    pub(crate) fn panics_at(&self, opcode: u16, input: &Input, pc: u16) -> (b: bool)
        ensures
            b == execute_panics(self@.with_pc(pc as int), opcode, input@),
    {
        let f = opcode_family(opcode);
        let x = opcode_x(opcode);
        let vx = self.cpu.gpio[x];
        let index = self.cpu.index as usize;
        let skip_would_overflow = pc > 0xFFFD;
        if opcode == 0x00EE {
            self.cpu.stack.len() == 0
        } else if f == 0x3 {
            skip_would_overflow && vx == opcode_nn(opcode)
        } else if f == 0x4 {
            skip_would_overflow && vx != opcode_nn(opcode)
        } else if f == 0x5 {
            skip_would_overflow && vx == self.cpu.gpio[opcode_y(opcode)]
        } else if f == 0x9 {
            skip_would_overflow && vx != self.cpu.gpio[opcode_y(opcode)]
        } else if f == 0xD {
            let n = opcode_n(opcode) as usize;
            n > 0 && index + n > MEMORY_SIZE
        } else if f == 0xE {
            let kind = opcode_nn(opcode);
            if kind == 0x9E || kind == 0xA1 {
                match keypad_host_key(vx) {
                    Some(k) => skip_would_overflow && (key_is_down(&input.keys_down, k) == (kind
                        == 0x9E)),
                    None => false,
                }
            } else {
                false
            }
        } else if f == 0xF {
            let kind = opcode_nn(opcode);
            if kind == 0x0A {
                input.keys_pressed.len() == 0 && pc < 2
            } else if kind == 0x1E {
                index + vx as usize > 0xFFFF
            } else if kind == 0x29 {
                vx as usize * 5 > 0xFF
            } else if kind == 0x33 {
                index + 2 >= MEMORY_SIZE
            } else if kind == 0x55 || kind == 0x65 {
                index + x >= MEMORY_SIZE
            } else {
                false
            }
        } else {
            false
        }
    }

    /// Executes `opcode` with `drawn` as the byte that `CXNN` masks (no other
    /// instruction reads it). An error leaves the machine unchanged.
    pub fn execute(&mut self, opcode: u16, input: &Input, drawn: u8) -> (r: Result<
        Option<KeyWarning>,
        Chip8Error,
    >)
        requires
            !execute_panics(old(self)@, opcode, input@),
        ensures
            match execute(old(self)@, opcode, input@, drawn) {
                Ok((t, w)) => r == Ok::<Option<KeyWarning>, Chip8Error>(w) && final(self)@ == t,
                Err(e) => r == Err::<Option<KeyWarning>, Chip8Error>(e) && final(self)@ == old(self)@,
            },
    {
        let f = opcode_family(opcode);
        if opcode == 0x00E0 {
            self.clear_screen();
        } else if opcode == 0x00EE {
            self.return_subroutine();
        } else if f == 0x0 {
            return Err(Chip8Error::UnknownOpcode(opcode));
        } else if f == 0x1 {
            self.jump(opcode);
        } else if f == 0x2 {
            self.push_addr_and_call_sub(opcode);
        } else if f == 0x3 {
            self.skip_if_reg_equal(opcode);
        } else if f == 0x4 {
            self.skip_if_reg_ne(opcode);
        } else if f == 0x5 {
            self.skip_if_reg_equal_reg(opcode);
        } else if f == 0x6 {
            self.set_reg(opcode);
        } else if f == 0x7 {
            self.add_val_to_reg(opcode);
        } else if f == 0x8 {
            self.handle_8_opcodes(opcode)?;
        } else if f == 0x9 {
            self.skip_if_ne_reg_reg(opcode);
        } else if f == 0xA {
            self.set_index_reg(opcode);
        } else if f == 0xB {
            self.jump_add_reg(opcode);
        } else if f == 0xC {
            self.random(opcode, drawn);
        } else if f == 0xD {
            self.draw_sprite(opcode);
        } else if f == 0xE {
            let kind = opcode_nn(opcode);
            if kind == 0x9E {
                return Ok(self.is_key_pressed(opcode, true, &input.keys_down));
            } else if kind == 0xA1 {
                return Ok(self.is_key_pressed(opcode, false, &input.keys_down));
            } else {
                return Err(Chip8Error::UnknownOpcode(opcode));
            }
        } else {
            self.handle_f_timers(opcode, input)?;
        }
        Ok(None)
    }

    /// Executes `opcode`, drawing a random byte for `CXNN`; the machine ends
    /// as `execute` would leave it for some byte.
    pub fn handle_opcode(&mut self, opcode: u16, input: &Input) -> (r: Result<
        Option<KeyWarning>,
        Chip8Error,
    >)
        requires
            !execute_panics(old(self)@, opcode, input@),
        ensures
            exists|drawn: u8|
                match #[trigger] execute(old(self)@, opcode, input@, drawn) {
                    Ok((t, w)) => r == Ok::<Option<KeyWarning>, Chip8Error>(w) && final(self)@ == t,
                    Err(e) => r == Err::<Option<KeyWarning>, Chip8Error>(e) && final(self)@ == old(
                        self,
                    )@,
                },
    {
        let drawn = if opcode_family(opcode) == 0xC {
            random_byte()
        } else {
            0
        };
        self.execute(opcode, input, drawn)
    }

    /// `FX??`.
    fn handle_f_timers(&mut self, opcode: u16, input: &Input) -> (r: Result<(), Chip8Error>)
        requires
            family(opcode) == 0xF,
            !execute_panics(old(self)@, opcode, input@),
        ensures
            match misc(old(self)@, opcode, input@) {
                Ok(t) => r is Ok && final(self)@ == t,
                Err(e) => r == Err::<(), Chip8Error>(e) && final(self)@ == old(self)@,
            },
    {
        let rhs = opcode_nn(opcode);
        let register = opcode_x(opcode);
        if rhs == 0x07 {
            self.cpu.gpio[register] = self.cpu.delay_timer;
        } else if rhs == 0x0A {
            if input.keys_pressed.len() == 0 {
                self.cpu.pc = self.cpu.pc - 2;
                return Ok(());
            }
            let first = input.keys_pressed[0];
            let hex_value = match pressed_key_value(first) {
                Some(h) => h,
                None => {
                    return Err(Chip8Error::InvalidKey(first));
                },
            };
            self.cpu.gpio[register] = hex_value;
        } else if rhs == 0x15 {
            self.cpu.delay_timer = self.cpu.gpio[register];
        } else if rhs == 0x18 {
            self.cpu.sound_timer = self.cpu.gpio[register];
        } else if rhs == 0x1E {
            self.cpu.index = self.cpu.index + self.cpu.gpio[register] as u16;
        } else if rhs == 0x29 {
            let value = self.cpu.gpio[register];
            self.cpu.index = (value * 5) as u16;
        } else if rhs == 0x33 {
            let regx = self.cpu.gpio[register];
            let i = self.cpu.index as usize;
            self.cpu.memory[i] = (regx / 100) % 10;
            self.cpu.memory[i + 1] = (regx / 10) % 10;
            self.cpu.memory[i + 2] = regx % 10;
            assert(self@.cpu.memory =~= store_bcd(old(self)@, opcode).cpu.memory);
        } else if rhs == 0x55 {
            let ghost start = self@;
            let mut i: usize = 0;
            while i <= register
                invariant
                    register == reg_x(opcode),
                    register < 16,
                    start == old(self)@,
                    i <= register + 1,
                    self.cpu.index + register < MEMORY_SIZE,
                    forall|a: int|
                        0 <= a < MEMORY_SIZE ==> #[trigger] self.cpu.memory@[a] == if self.cpu.index
                            <= a < self.cpu.index + i {
                            start.cpu.v[a - self.cpu.index]
                        } else {
                            start.cpu.memory[a]
                        },
                    self.cpu.gpio@ == start.cpu.v,
                    self.cpu.stack@ == start.cpu.stack,
                    self.cpu.index == start.cpu.index,
                    self.cpu.pc == start.cpu.pc,
                    self.cpu.delay_timer == start.cpu.delay_timer,
                    self.cpu.sound_timer == start.cpu.sound_timer,
                    self.buffer@ == start.display,
                    self.sound_playing == start.sound_playing,
                decreases register + 1 - i,
            {
                self.cpu.memory[self.cpu.index as usize + i] = self.cpu.gpio[i];
                i = i + 1;
            }
            assert(self@.cpu.memory =~= store_registers(start, opcode).cpu.memory);
        } else if rhs == 0x65 {
            let ghost start = self@;
            let mut i: usize = 0;
            while i <= register
                invariant
                    register == reg_x(opcode),
                    register < 16,
                    start == old(self)@,
                    i <= register + 1,
                    self.cpu.index + register < MEMORY_SIZE,
                    forall|k: int|
                        0 <= k < 16 ==> #[trigger] self.cpu.gpio@[k] == if k < i {
                            start.cpu.memory[self.cpu.index + k]
                        } else {
                            start.cpu.v[k]
                        },
                    self.cpu.memory@ == start.cpu.memory,
                    self.cpu.stack@ == start.cpu.stack,
                    self.cpu.index == start.cpu.index,
                    self.cpu.pc == start.cpu.pc,
                    self.cpu.delay_timer == start.cpu.delay_timer,
                    self.cpu.sound_timer == start.cpu.sound_timer,
                    self.buffer@ == start.display,
                    self.sound_playing == start.sound_playing,
                decreases register + 1 - i,
            {
                self.cpu.gpio[i] = self.cpu.memory[self.cpu.index as usize + i];
                i = i + 1;
            }
            assert(self@.cpu.v =~= load_registers(start, opcode).cpu.v);
        } else {
            return Err(Chip8Error::UnknownOpcode(opcode));
        }
        Ok(())
    }

    /// `00E0`.
    fn clear_screen(&mut self)
        ensures
            final(self)@ == clear_display(old(self)@),
    {
        let mut i: usize = 0;
        while i < DISPLAY_SIZE
            invariant
                i <= DISPLAY_SIZE,
                forall|p: int| 0 <= p < i ==> self.buffer@[p] == 0u32,
                self.cpu@ == old(self).cpu@,
                self.sound_playing == old(self).sound_playing,
            decreases DISPLAY_SIZE - i,
        {
            self.buffer[i] = 0;
            i = i + 1;
        }
        assert(self.buffer@ =~= clear_display(old(self)@).display);
    }

    /// `00EE`.
    fn return_subroutine(&mut self)
        requires
            old(self)@.cpu.stack.len() > 0,
        ensures
            final(self)@ == return_from_call(old(self)@),
    {
        let addr = self.cpu.stack.pop();
        match addr {
            Some(a) => {
                self.cpu.pc = a;
            },
            None => {},
        }
    }

    /// `2NNN`.
    fn push_addr_and_call_sub(&mut self, opcode: u16)
        ensures
            final(self)@ == call(old(self)@, opcode),
    {
        self.cpu.stack.push(self.cpu.pc);
        self.cpu.pc = opcode_nnn(opcode);
    }

    /// `6XNN`.
    fn set_reg(&mut self, opcode: u16)
        ensures
            final(self)@ == load_byte(old(self)@, opcode),
    {
        let register = opcode_x(opcode);
        let value = opcode_nn(opcode);
        self.cpu.gpio[register] = value;
    }

    /// `7XNN`.
    fn add_val_to_reg(&mut self, opcode: u16)
        ensures
            final(self)@ == add_byte(old(self)@, opcode),
    {
        let register = opcode_x(opcode);
        let value = opcode_nn(opcode);
        self.cpu.gpio[register] = self.cpu.gpio[register].wrapping_add(value);
    }

    /// `8XY?`.
    fn handle_8_opcodes(&mut self, opcode: u16) -> (r: Result<(), Chip8Error>)
        ensures
            match arithmetic(old(self)@, opcode) {
                Some(t) => r is Ok && final(self)@ == t,
                None => r == Err::<(), Chip8Error>(Chip8Error::UnknownOpcode(opcode))
                    && final(self)@ == old(self)@,
            },
    {
        let x = opcode_x(opcode);
        let y = opcode_y(opcode);
        let regx = self.cpu.gpio[x];
        let regy = self.cpu.gpio[y];
        let kind = opcode_n(opcode);
        proof {
            assert(regx == old(self)@.reg(reg_x(opcode)));
            assert(regy == old(self)@.reg(reg_y(opcode)));
        }
        if kind == 0x0 {
            self.cpu.gpio[x] = regy;
        } else if kind == 0x1 {
            self.cpu.gpio[x] = regx | regy;
            self.cpu.gpio[0xF] = 0;
        } else if kind == 0x2 {
            self.cpu.gpio[x] = regx & regy;
            self.cpu.gpio[0xF] = 0;
        } else if kind == 0x3 {
            self.cpu.gpio[x] = regx ^ regy;
            self.cpu.gpio[0xF] = 0;
        } else if kind == 0x4 {
            let result = regx as usize + regy as usize;
            let low = result as u8;
            assert(low == result % 256) by (bit_vector)
                requires
                    low == result as u8,
            ;
            self.cpu.gpio[x] = low;
            self.cpu.gpio[0xF] = if result > 255 { 1 } else { 0 };
        } else if kind == 0x5 {
            self.cpu.gpio[x] = regx.wrapping_sub(regy);
            self.cpu.gpio[0xF] = if regx >= regy { 1 } else { 0 };
        } else if kind == 0x6 {
            let shifted = regy >> 1u8;
            let bit = regy & 0x01u8;
            assert(shifted == regy / 2 && bit == regy % 2) by (bit_vector)
                requires
                    shifted == regy >> 1u8,
                    bit == regy & 0x01u8,
            ;
            self.cpu.gpio[x] = shifted;
            self.cpu.gpio[0xF] = bit;
        } else if kind == 0x7 {
            self.cpu.gpio[x] = regy.wrapping_sub(regx);
            self.cpu.gpio[0xF] = if regy >= regx { 1 } else { 0 };
        } else if kind == 0xE {
            let shifted = regy << 1u8;
            let bit = (regy >> 7u8) & 1u8;
            assert(shifted as int == (regy as int * 2) % 256 && bit == regy / 128) by (bit_vector)
                requires
                    shifted == regy << 1u8,
                    bit == (regy >> 7u8) & 1u8,
            ;
            self.cpu.gpio[x] = shifted;
            self.cpu.gpio[0xF] = bit;
        } else {
            return Err(Chip8Error::UnknownOpcode(opcode));
        }
        proof {
            let t = arithmetic(old(self)@, opcode);
            assert(t is Some);
            assert(self@.cpu.v =~= t->0.cpu.v);
        }
        Ok(())
    }

    /// `9XY?`.
    fn skip_if_ne_reg_reg(&mut self, opcode: u16)
        requires
            !skip_overflows(
                old(self)@,
                old(self)@.reg(reg_x(opcode)) != old(self)@.reg(reg_y(opcode)),
            ),
        ensures
            final(self)@ == skip_ne_reg(old(self)@, opcode),
    {
        let x = opcode_x(opcode);
        let y = opcode_y(opcode);
        if self.cpu.gpio[x] != self.cpu.gpio[y] {
            self.cpu.pc = self.cpu.pc + 2;
        }
    }

    /// `3XNN`.
    fn skip_if_reg_equal(&mut self, opcode: u16)
        requires
            !skip_overflows(old(self)@, old(self)@.reg(reg_x(opcode)) == low_byte(opcode)),
        ensures
            final(self)@ == skip_eq_byte(old(self)@, opcode),
    {
        let register = opcode_x(opcode);
        let value = opcode_nn(opcode);
        if self.cpu.gpio[register] == value {
            self.cpu.pc = self.cpu.pc + 2;
        }
    }

    /// `4XNN`.
    fn skip_if_reg_ne(&mut self, opcode: u16)
        requires
            !skip_overflows(old(self)@, old(self)@.reg(reg_x(opcode)) != low_byte(opcode)),
        ensures
            final(self)@ == skip_ne_byte(old(self)@, opcode),
    {
        let register = opcode_x(opcode);
        let value = opcode_nn(opcode);
        if self.cpu.gpio[register] != value {
            self.cpu.pc = self.cpu.pc + 2;
        }
    }

    /// `5XY?`.
    fn skip_if_reg_equal_reg(&mut self, opcode: u16)
        requires
            !skip_overflows(
                old(self)@,
                old(self)@.reg(reg_x(opcode)) == old(self)@.reg(reg_y(opcode)),
            ),
        ensures
            final(self)@ == skip_eq_reg(old(self)@, opcode),
    {
        let registerx = opcode_x(opcode);
        let registery = opcode_y(opcode);
        if self.cpu.gpio[registerx] == self.cpu.gpio[registery] {
            self.cpu.pc = self.cpu.pc + 2;
        }
    }

    /// `ANNN`.
    fn set_index_reg(&mut self, opcode: u16)
        ensures
            final(self)@ == load_index(old(self)@, opcode),
    {
        self.cpu.index = opcode_nnn(opcode);
    }

    /// `BNNN`.
    fn jump_add_reg(&mut self, opcode: u16)
        ensures
            final(self)@ == jump_offset(old(self)@, opcode),
    {
        let value = opcode_nnn(opcode);
        self.cpu.pc = value + self.cpu.gpio[0] as u16;
    }

    /// `CXNN`, given the byte `drawn` at random.
    fn random(&mut self, opcode: u16, drawn: u8)
        ensures
            final(self)@ == random_masked(old(self)@, opcode, drawn),
    {
        let register = opcode_x(opcode);
        let value = opcode_nn(opcode);
        self.cpu.gpio[register] = drawn & value;
    }

    /// `EX9E` (`when_down`) and `EXA1` (`!when_down`).
    fn is_key_pressed(&mut self, opcode: u16, when_down: bool, keys_down: &Vec<HostKey>) -> (w:
        Option<KeyWarning>)
        requires
            match keypad_key(old(self)@.reg(reg_x(opcode))) {
                Some(k) => !skip_overflows(old(self)@, keys_down@.contains(k) == when_down),
                None => true,
            },
        ensures
            (final(self)@, w) == key_skip(
                old(self)@,
                opcode,
                keys_down@,
                when_down,
            ),
    {
        let register = opcode_x(opcode);
        let value = self.cpu.gpio[register];
        let key = match keypad_host_key(value) {
            Some(k) => k,
            None => {
                return Some(KeyWarning { opcode: opcode, register: register as u8, value: value });
            },
        };
        let down = key_is_down(keys_down, key);
        if down == when_down {
            self.cpu.pc = self.cpu.pc + 2;
        }
        None
    }
    fn jump(&mut self, opcode: u16)
        ensures
            final(self)@ == jump(old(self)@, opcode),
    {
        self.cpu.pc = opcode_nnn(opcode);
    }

    fn draw_sprite(&mut self, opcode: u16)
        requires
            nibble(opcode) == 0 || old(self)@.cpu.index + nibble(opcode) <= MEMORY_SIZE,
        ensures
            final(self)@ == draw(old(self)@, opcode),
    {
        let regx = self.cpu.gpio[opcode_x(opcode)];
        let regy = self.cpu.gpio[opcode_y(opcode)];
        let n = opcode_n(opcode) as usize;

        self.cpu.gpio[0xF] = 0;

        let ghost mem = self.cpu.memory@;
        let ghost index = self.cpu.index;
        let ghost d0 = self.buffer@;
        let ghost v0 = old(self).cpu.gpio@;

        let mut row: usize = 0;
        while row < n
            invariant
                0 <= row <= n <= 15,
                n == nibble(opcode),
                n == 0 || index + n <= MEMORY_SIZE,
                mem == old(self).cpu.memory@,
                index == old(self).cpu.index,
                d0 == old(self).buffer@,
                v0 == old(self).cpu.gpio@,
                regx == v0[reg_x(opcode)],
                regy == v0[reg_y(opcode)],
                self.cpu.memory@ == mem,
                self.cpu.index == index,
                self.cpu.stack@ == old(self).cpu.stack@,
                self.cpu.sound_timer == old(self).cpu.sound_timer,
                self.cpu.delay_timer == old(self).cpu.delay_timer,
                self.cpu.pc == old(self).cpu.pc,
                self.sound_playing == old(self).sound_playing,
                forall|p: int|
                    0 <= p < DISPLAY_SIZE ==> #[trigger] self.buffer@[p] == if covers_before(
                        mem,
                        index,
                        regx,
                        regy,
                        n as int,
                        p,
                        row as int,
                        0,
                    ) {
                        d0[p] ^ PIXEL_ON
                    } else {
                        d0[p]
                    },
                self.cpu.gpio@ == v0.update(
                    15,
                    if hit_before(mem, index, regx, regy, n as int, d0, row as int, 0) {
                        1u8
                    } else {
                        0u8
                    },
                ),
            decreases n - row,
        {
            let sprite_byte = self.cpu.memory[self.cpu.index as usize + row];
            let mut col: usize = 0;
            while col < 8
                invariant
                    0 <= row < n <= 15,
                    0 <= col <= 8,
                    n == nibble(opcode),
                    sprite_byte == mem[index + row],
                    mem == old(self).cpu.memory@,
                    index == old(self).cpu.index,
                    d0 == old(self).buffer@,
                    v0 == old(self).cpu.gpio@,
                    regx == v0[reg_x(opcode)],
                    regy == v0[reg_y(opcode)],
                    self.cpu.memory@ == mem,
                    self.cpu.index == index,
                    self.cpu.stack@ == old(self).cpu.stack@,
                    self.cpu.sound_timer == old(self).cpu.sound_timer,
                    self.cpu.delay_timer == old(self).cpu.delay_timer,
                    self.cpu.pc == old(self).cpu.pc,
                    self.sound_playing == old(self).sound_playing,
                    forall|p: int|
                        0 <= p < DISPLAY_SIZE ==> #[trigger] self.buffer@[p] == if covers_before(
                            mem,
                            index,
                            regx,
                            regy,
                            n as int,
                            p,
                            row as int,
                            col as int,
                        ) {
                            d0[p] ^ PIXEL_ON
                        } else {
                            d0[p]
                        },
                    self.cpu.gpio@ == v0.update(
                        15,
                        if hit_before(mem, index, regx, regy, n as int, d0, row as int, col as int) {
                            1u8
                        } else {
                            0u8
                        },
                    ),
                decreases 8 - col,
            {
                let shift: u8 = (7 - col) as u8;
                let sprite_pixel = (sprite_byte >> shift) & 1;
                proof {
                    lemma_covers_step(mem, index, regx, regy, n as int, row as int, col as int);
                    assert(sprite_pixel == 0 || sprite_pixel == 1) by (bit_vector)
                        requires
                            sprite_pixel == (sprite_byte >> shift) & 1u8,
                    ;
                    assert(sprite_bit(sprite_byte, col as int) == (sprite_pixel == 1));
                }
                let ghost before = self.buffer@;
                let ghost hit0 = hit_before(mem, index, regx, regy, n as int, d0, row as int, col as int);
                if sprite_pixel != 0 {
                    let px = (regx as usize + col) % 64;
                    let py = (regy as usize + row) % 32;
                    let idx = py * 64 + px;
                    assert(idx == pixel_index(regx, regy, row as int, col as int));
                    assert(self.buffer@[idx as int] == d0[idx as int]);
                    if self.buffer[idx] != 0 {
                        self.cpu.gpio[0xF] = 1;
                    }
                    self.buffer[idx] = self.buffer[idx] ^ PIXEL_ON;
                    proof {
                        let idx_i = idx as int;
                        assert(covers_before(mem, index, regx, regy, n as int, idx_i, row as int, col as int + 1));
                        if d0[idx_i] != 0 {
                            assert(hit_before(mem, index, regx, regy, n as int, d0, row as int, col as int + 1));
                        }
                        if hit_before(mem, index, regx, regy, n as int, d0, row as int, col as int + 1) {
                            let w = choose|p: int|
                                0 <= p < DISPLAY_SIZE && #[trigger] covers_before(mem, index, regx, regy, n as int, p, row as int, col as int + 1)
                                    && d0[p] != 0;
                            if w != idx_i {
                                assert(covers_before(mem, index, regx, regy, n as int, w, row as int, col as int));
                            }
                        }
                        if hit0 {
                            let w = choose|p: int|
                                0 <= p < DISPLAY_SIZE && #[trigger] covers_before(mem, index, regx, regy, n as int, p, row as int, col as int)
                                    && d0[p] != 0;
                            assert(covers_before(mem, index, regx, regy, n as int, w, row as int, col as int + 1));
                        }
                    }
                } else {
                    proof {
                        if hit_before(mem, index, regx, regy, n as int, d0, row as int, col as int + 1) {
                            let w = choose|p: int|
                                0 <= p < DISPLAY_SIZE && #[trigger] covers_before(mem, index, regx, regy, n as int, p, row as int, col as int + 1)
                                    && d0[p] != 0;
                            assert(covers_before(mem, index, regx, regy, n as int, w, row as int, col as int));
                        }
                        if hit0 {
                            let w = choose|p: int|
                                0 <= p < DISPLAY_SIZE && #[trigger] covers_before(mem, index, regx, regy, n as int, p, row as int, col as int)
                                    && d0[p] != 0;
                            assert(covers_before(mem, index, regx, regy, n as int, w, row as int, col as int + 1));
                        }
                    }
                }
                col = col + 1;
            }
            proof {
                lemma_covers_row_end(mem, index, regx, regy, n as int, row as int);
                lemma_hit_row_end(mem, index, regx, regy, n as int, d0, row as int);
            }
            row = row + 1;
        }
        proof {
            lemma_covers_all(mem, index, regx, regy, n as int);
            let target = draw(old(self)@, opcode);
            assert(self.buffer@ =~= target.display);
            assert(hit_before(mem, index, regx, regy, n as int, d0, n as int, 0) == (exists|p: int|
                0 <= p < DISPLAY_SIZE && #[trigger] covers(mem, index, regx, regy, n as int, p)
                    && d0[p] != 0));
            assert(self.cpu.gpio@ =~= target.cpu.v);
        }
    }
}

} // verus!
