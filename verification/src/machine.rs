//! The processor and the machine around it: construction, program loading,
//! the fetch-execute cycle and the timers.

use vstd::prelude::*;
use crate::state::{
    Chip8Error, CpuState, CycleReport, Input, MachineState, Sound, DISPLAY_SIZE, MAX_ROM_SIZE,
    MEMORY_SIZE, PROGRAM_START, REGISTER_COUNT,
};
use crate::semantics::{
    advance, cycle_panics, fetch, font, power_on, sound_command, step, with_font,
    with_rom,
};
use crate::random::random_byte;

mod instructions;

verus! {

/// Memory, return addresses, registers, timers, index register and program counter.
pub struct Cpu {
    pub(crate) memory: [u8; MEMORY_SIZE],
    pub(crate) stack: Vec<u16>,
    pub(crate) gpio: [u8; REGISTER_COUNT],
    pub(crate) sound_timer: u8,
    pub(crate) delay_timer: u8,
    pub(crate) index: u16,
    pub(crate) pc: u16,
}

impl View for Cpu {
    type V = CpuState;

    closed spec fn view(&self) -> CpuState {
        CpuState {
            memory: self.memory@,
            stack: self.stack@,
            v: self.gpio@,
            delay_timer: self.delay_timer,
            sound_timer: self.sound_timer,
            index: self.index,
            pc: self.pc,
        }
    }
}

/// A processor with its display buffer and the state of the tone.
pub struct Machine {
    pub(crate) cpu: Cpu,
    pub(crate) buffer: [u32; DISPLAY_SIZE],
    pub(crate) sound_playing: bool,
}

impl View for Machine {
    type V = MachineState;

    closed spec fn view(&self) -> MachineState {
        MachineState { cpu: self.cpu@, display: self.buffer@, sound_playing: self.sound_playing }
    }
}

impl Machine {
    /// Every machine has 4096 bytes of memory, 16 registers and a 64x32 display.
    pub proof fn lemma_wf(&self)
        ensures
            self@.wf(),
    {
    }

    /// A machine as it is switched on.
    pub fn new() -> (m: Machine)
        ensures
            m@ == power_on(),
    {
        let m = Machine {
            cpu: Cpu {
                memory: [0u8; MEMORY_SIZE],
                stack: Vec::new(),
                gpio: [0u8; REGISTER_COUNT],
                sound_timer: 0,
                delay_timer: 0,
                index: 0,
                pc: PROGRAM_START,
            },
            buffer: [0u32; DISPLAY_SIZE],
            sound_playing: false,
        };
        assert(m@.cpu.memory =~= power_on().cpu.memory);
        assert(m@.cpu.v =~= power_on().cpu.v);
        assert(m@.display =~= power_on().display);
        m
    }


    /// Whether the next cycle with `input` would panic: the opcode lies past
    /// the end of memory, or executing it panics (see `execute_panics`).
    pub fn next_cycle_panics(&self, input: &Input) -> (b: bool)
        ensures
            b == cycle_panics(self@, input@),
    {
        let pc = self.cpu.pc as usize;
        if pc + 1 >= MEMORY_SIZE {
            return true;
        }
        let opcode = self.fetch();
        self.panics_at(opcode, input, (pc + 2) as u16)
    }

    /// The opcode at the program counter, big-endian.
    fn fetch(&self) -> (op: u16)
        requires
            self@.cpu.pc + 1 < MEMORY_SIZE,
        ensures
            op == fetch(self@),
    {
        let pc = self.cpu.pc as usize;
        let hi = self.cpu.memory[pc];
        let lo = self.cpu.memory[pc + 1];
        let op = (hi as u16) << 8u16 | (lo as u16);
        assert(op == hi as u16 * 256 + lo as u16) by (bit_vector)
            requires
                op == (hi as u16) << 8u16 | (lo as u16),
        ;
        op
    }

    /// One cycle with `drawn` as the byte that `CXNN` masks: fetch the opcode,
    /// move past it, execute it, tick the timers when `input.timer_tick`,
    /// and say what to do with the tone. An error stops the cycle after the
    /// program counter moved.
    pub fn step(&mut self, input: &Input, drawn: u8) -> (r: Result<CycleReport, Chip8Error>)
        requires
            !cycle_panics(old(self)@, input@),
        ensures
            match step(old(self)@, input@, drawn) {
                Ok((t, report)) => r == Ok::<CycleReport, Chip8Error>(report) && final(self)@ == t,
                Err(e) => r == Err::<CycleReport, Chip8Error>(e) && final(self)@ == advance(old(self)@),
            },
    {
        let opcode = self.fetch();
        self.cpu.pc = self.cpu.pc + 2;
        let key_warning = self.execute(opcode, input, drawn)?;

        if input.timer_tick {
            if self.cpu.delay_timer > 0 {
                self.cpu.delay_timer = self.cpu.delay_timer - 1;
            }
            if self.cpu.sound_timer > 0 {
                self.cpu.sound_timer = self.cpu.sound_timer - 1;
            }
        }
        let ghost ticked = self@;
        let sound = if self.cpu.sound_timer > 0 {
            if !self.sound_playing {
                self.sound_playing = true;
                Sound::Start
            } else {
                Sound::Unchanged
            }
        } else {
            if self.sound_playing {
                self.sound_playing = false;
                Sound::Stop
            } else {
                Sound::Unchanged
            }
        };
        assert(sound == sound_command(ticked));
        Ok(CycleReport { sound: sound, key_warning: key_warning })
    }

    /// One cycle, drawing a random byte when the opcode is `CXNN`; the
    /// machine ends as `step` would leave it for some byte.
    pub fn cycle(&mut self, input: &Input) -> (r: Result<CycleReport, Chip8Error>)
        requires
            !cycle_panics(old(self)@, input@),
        ensures
            exists|drawn: u8|
                match #[trigger] step(old(self)@, input@, drawn) {
                    Ok((t, report)) => r == Ok::<CycleReport, Chip8Error>(report) && final(self)@
                        == t,
                    Err(e) => r == Err::<CycleReport, Chip8Error>(e) && final(self)@ == advance(
                        old(self)@,
                    ),
                },
    {
        let pc = self.cpu.pc as usize;
        let drawn = if self.cpu.memory[pc] >> 4u8 == 0xC {
            random_byte()
        } else {
            0
        };
        self.step(input, drawn)
    }

    /// Writes the font glyphs for `0`..`F` at address 0.
    pub fn write_font(&mut self)
        ensures
            final(self)@ == with_font(old(self)@),
    {
        let glyphs: [u8; 80] = [
            0xF0, 0x90, 0x90, 0x90, 0xF0, // 0
            0x20, 0x60, 0x20, 0x20, 0x70, // 1
            0xF0, 0x10, 0xF0, 0x80, 0xF0, // 2
            0xF0, 0x10, 0xF0, 0x10, 0xF0, // 3
            0x90, 0x90, 0xF0, 0x10, 0x10, // 4
            0xF0, 0x80, 0xF0, 0x10, 0xF0, // 5
            0xF0, 0x80, 0xF0, 0x90, 0xF0, // 6
            0xF0, 0x10, 0x20, 0x40, 0x40, // 7
            0xF0, 0x90, 0xF0, 0x90, 0xF0, // 8
            0xF0, 0x90, 0xF0, 0x10, 0xF0, // 9
            0xF0, 0x90, 0xF0, 0x90, 0x90, // A
            0xE0, 0x90, 0xE0, 0x90, 0xE0, // B
            0xF0, 0x80, 0x80, 0x80, 0xF0, // C
            0xE0, 0x90, 0x90, 0x90, 0xE0, // D
            0xF0, 0x80, 0xF0, 0x80, 0xF0, // E
            0xF0, 0x80, 0xF0, 0x80, 0x80, // F
        ];
        assert(glyphs@ =~= font());
        let mut i: usize = 0;
        while i < 80
            invariant
                i <= 80,
                glyphs@ == font(),
                forall|a: int| 0 <= a < i ==> self.cpu.memory@[a] == font()[a],
                forall|a: int| i <= a < MEMORY_SIZE ==> self.cpu.memory@[a] == old(self).cpu.memory@[a],
                self.cpu.stack@ == old(self).cpu.stack@,
                self.cpu.gpio@ == old(self).cpu.gpio@,
                self.cpu.sound_timer == old(self).cpu.sound_timer,
                self.cpu.delay_timer == old(self).cpu.delay_timer,
                self.cpu.index == old(self).cpu.index,
                self.cpu.pc == old(self).cpu.pc,
                self.buffer@ == old(self).buffer@,
                self.sound_playing == old(self).sound_playing,
            decreases 80 - i,
        {
            self.cpu.memory[i] = glyphs[i];
            i = i + 1;
        }
        assert(self@.cpu.memory =~= with_font(old(self)@).cpu.memory);
    }

    /// Copies `rom` to memory from `PROGRAM_START` on; a program longer than
    /// `MAX_ROM_SIZE` is refused and the machine left as it was.
    pub fn load_rom(&mut self, rom: &[u8]) -> (r: Result<(), Chip8Error>)
        ensures
            rom@.len() <= MAX_ROM_SIZE ==> r is Ok && final(self)@ == with_rom(old(self)@, rom@),
            rom@.len() > MAX_ROM_SIZE ==> r == Err::<(), Chip8Error>(
                Chip8Error::RomTooLarge { size: rom@.len() as usize, max: MAX_ROM_SIZE },
            ) && final(self)@ == old(self)@,
    {
        let max_size = MAX_ROM_SIZE;
        if rom.len() > max_size {
            return Err(Chip8Error::RomTooLarge { size: rom.len(), max: max_size });
        }
        let mut i: usize = 0;
        while i < rom.len()
            invariant
                i <= rom@.len() <= MAX_ROM_SIZE,
                forall|a: int|
                    PROGRAM_START <= a < PROGRAM_START + i ==> self.cpu.memory@[a] == rom@[a
                        - PROGRAM_START],
                forall|a: int|
                    0 <= a < MEMORY_SIZE && !(PROGRAM_START <= a < PROGRAM_START + i)
                        ==> self.cpu.memory@[a] == old(self).cpu.memory@[a],
                self.cpu.stack@ == old(self).cpu.stack@,
                self.cpu.gpio@ == old(self).cpu.gpio@,
                self.cpu.sound_timer == old(self).cpu.sound_timer,
                self.cpu.delay_timer == old(self).cpu.delay_timer,
                self.cpu.index == old(self).cpu.index,
                self.cpu.pc == old(self).cpu.pc,
                self.buffer@ == old(self).buffer@,
                self.sound_playing == old(self).sound_playing,
            decreases rom@.len() - i,
        {
            self.cpu.memory[0x200 + i] = rom[i];
            i = i + 1;
        }
        assert(self@.cpu.memory =~= with_rom(old(self)@, rom@).cpu.memory);
        Ok(())
    }
}

impl Cpu {
    /// The program counter.
    pub fn pc(&self) -> (r: u16)
        ensures
            r == self@.pc,
    {
        self.pc
    }

    /// The index register `I`.
    pub fn index(&self) -> (r: u16)
        ensures
            r == self@.index,
    {
        self.index
    }

    /// Register `V{i}`.
    pub fn register(&self, i: usize) -> (r: u8)
        requires
            i < REGISTER_COUNT,
        ensures
            r == self@.v[i as int],
    {
        self.gpio[i]
    }

    /// The byte at `addr`.
    pub fn memory_at(&self, addr: usize) -> (r: u8)
        requires
            addr < MEMORY_SIZE,
        ensures
            r == self@.memory[addr as int],
    {
        self.memory[addr]
    }

    /// The delay timer.
    pub fn delay_timer(&self) -> (r: u8)
        ensures
            r == self@.delay_timer,
    {
        self.delay_timer
    }

    /// The sound timer.
    pub fn sound_timer(&self) -> (r: u8)
        ensures
            r == self@.sound_timer,
    {
        self.sound_timer
    }

    /// The saved return addresses, oldest first.
    pub fn stack(&self) -> (r: &Vec<u16>)
        ensures
            r@ == self@.stack,
    {
        &self.stack
    }
}

impl Machine {
    /// The processor.
    pub fn cpu(&self) -> (r: &Cpu)
        ensures
            r@ == self@.cpu,
    {
        &self.cpu
    }

    /// The display buffer, row by row, 64 pixels per row.
    pub fn buffer(&self) -> (r: &[u32; DISPLAY_SIZE])
        ensures
            r@ == self@.display,
    {
        &self.buffer
    }

    /// Whether the tone is playing.
    pub fn sound_playing(&self) -> (r: bool)
        ensures
            r == self@.sound_playing,
    {
        self.sound_playing
    }
}

} // verus!
