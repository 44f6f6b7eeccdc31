//! Plain data exchanged between the interpreter and its host, and the
//! mathematical model of the machine that the contracts speak of.

use vstd::prelude::*;

verus! {

/// Bytes of addressable memory.
pub const MEMORY_SIZE: usize = 4096;

/// Number of general purpose registers `V0`..`VF`.
pub const REGISTER_COUNT: usize = 16;

/// Display width in pixels.
pub const DISPLAY_WIDTH: usize = 64;

/// Display height in pixels.
pub const DISPLAY_HEIGHT: usize = 32;

/// Pixels in the display buffer (`DISPLAY_WIDTH * DISPLAY_HEIGHT`).
pub const DISPLAY_SIZE: usize = 2048;

/// Address at which programs are loaded and execution starts.
pub const PROGRAM_START: u16 = 0x200;

/// Largest program that fits between `PROGRAM_START` and the end of memory.
pub const MAX_ROM_SIZE: usize = MEMORY_SIZE - 0x200;

/// The value a lit pixel is toggled with.
pub const PIXEL_ON: u32 = 0xFFFF_FFFF;

/// The keys of the host keyboard that the interpreter gives a meaning to;
/// every other key is `Other`.
#[derive(Clone, Copy, PartialEq, Eq, Structural, Debug)]
pub enum HostKey {
    Key1,
    Key2,
    Key3,
    Key4,
    Q,
    W,
    E,
    R,
    A,
    S,
    D,
    F,
    Z,
    X,
    C,
    V,
    Other,
}

/// What the host observed since the display was last refreshed.
pub struct Input {
    /// The keys held down.
    pub keys_down: Vec<HostKey>,
    /// The keys that went down since the previous refresh, in the host's order.
    pub keys_pressed: Vec<HostKey>,
    /// Whether a sixtieth of a second has passed since the timers last ticked.
    pub timer_tick: bool,
}

/// Model of an `Input`.
pub struct InputState {
    pub keys_down: Seq<HostKey>,
    pub keys_pressed: Seq<HostKey>,
    pub timer_tick: bool,
}

impl View for Input {
    type V = InputState;

    open spec fn view(&self) -> InputState {
        InputState {
            keys_down: self.keys_down@,
            keys_pressed: self.keys_pressed@,
            timer_tick: self.timer_tick,
        }
    }
}

/// What the host must do with the tone after a cycle.
#[derive(Clone, Copy, PartialEq, Eq, Structural, Debug)]
pub enum Sound {
    Start,
    Stop,
    Unchanged,
}

/// A key test (`EX9E`, `EXA1`) found a register value that names no key;
/// the instruction then does nothing.
#[derive(Clone, Copy, PartialEq, Eq, Structural, Debug)]
pub struct KeyWarning {
    pub opcode: u16,
    pub register: u8,
    pub value: u8,
}

/// What one cycle asks of the host.
#[derive(Clone, Copy, PartialEq, Eq, Structural, Debug)]
pub struct CycleReport {
    pub sound: Sound,
    pub key_warning: Option<KeyWarning>,
}

/// Why the interpreter stopped.
#[derive(Clone, Copy, PartialEq, Eq, Structural, Debug)]
pub enum Chip8Error {
    /// The opcode is not an instruction.
    UnknownOpcode(u16),
    /// `FX0A` saw a key go down that stands for no hexadecimal digit.
    InvalidKey(HostKey),
    /// The program does not fit in memory after `PROGRAM_START`.
    RomTooLarge { size: usize, max: usize },
}

/// Model of the processor.
pub struct CpuState {
    pub memory: Seq<u8>,
    pub stack: Seq<u16>,
    pub v: Seq<u8>,
    pub delay_timer: u8,
    pub sound_timer: u8,
    pub index: u16,
    pub pc: u16,
}

/// Model of the whole machine: processor, display and tone.
pub struct MachineState {
    pub cpu: CpuState,
    pub display: Seq<u32>,
    pub sound_playing: bool,
}

impl MachineState {
    /// Sizes every reachable machine has.
    pub open spec fn wf(self) -> bool {
        &&& self.cpu.memory.len() == MEMORY_SIZE
        &&& self.cpu.v.len() == REGISTER_COUNT
        &&& self.display.len() == DISPLAY_SIZE
    }

    pub open spec fn reg(self, i: int) -> u8 {
        self.cpu.v[i]
    }

    pub open spec fn with_reg(self, i: int, b: u8) -> MachineState {
        MachineState { cpu: CpuState { v: self.cpu.v.update(i, b), ..self.cpu }, ..self }
    }

    pub open spec fn with_pc(self, pc: int) -> MachineState {
        MachineState { cpu: CpuState { pc: pc as u16, ..self.cpu }, ..self }
    }

    pub open spec fn with_index(self, index: int) -> MachineState {
        MachineState { cpu: CpuState { index: index as u16, ..self.cpu }, ..self }
    }

    pub open spec fn with_stack(self, stack: Seq<u16>) -> MachineState {
        MachineState { cpu: CpuState { stack: stack, ..self.cpu }, ..self }
    }

    pub open spec fn with_memory(self, memory: Seq<u8>) -> MachineState {
        MachineState { cpu: CpuState { memory: memory, ..self.cpu }, ..self }
    }

    pub open spec fn with_registers(self, v: Seq<u8>) -> MachineState {
        MachineState { cpu: CpuState { v: v, ..self.cpu }, ..self }
    }

    pub open spec fn with_delay(self, t: u8) -> MachineState {
        MachineState { cpu: CpuState { delay_timer: t, ..self.cpu }, ..self }
    }

    pub open spec fn with_sound_timer(self, t: u8) -> MachineState {
        MachineState { cpu: CpuState { sound_timer: t, ..self.cpu }, ..self }
    }

    pub open spec fn with_display(self, d: Seq<u32>) -> MachineState {
        MachineState { display: d, ..self }
    }

    pub open spec fn with_sound_playing(self, b: bool) -> MachineState {
        MachineState { sound_playing: b, ..self }
    }

    /// Advances the program counter past one instruction when `cond` holds.
    pub open spec fn skip_if(self, cond: bool) -> MachineState {
        if cond {
            self.with_pc(self.cpu.pc + 2)
        } else {
            self
        }
    }
}

} // verus!
