# chip8

A CHIP-8 interpreter whose core is verified with Verus.

- `src/state.rs` — sizes, the plain values exchanged with the host (`Input`,
  `CycleReport`, `Sound`, `Chip8Error`, `HostKey`) and the model of the machine
  (`CpuState`, `MachineState`).
- `src/semantics.rs` — the instruction set as spec functions over the model,
  the inputs on which an instruction panics, and one fetch-execute cycle.
- `src/decode.rs` — opcode fields by masks and shifts, proved equal to the
  arithmetic fields of the model.
- `src/keypad.rs` — the keypad/keyboard tables.
- `src/machine.rs`, `src/machine/instructions.rs` — the executable machine,
  one method per instruction, each proved against its spec function.
- `src/sprite.rs` — where sprite pixels land on the wrapping display.
- `src/laws.rs` — properties across instructions and cycles.
- `src/random.rs` — the byte drawn for `CXNN` (from `rand`).
- `app/main.rs` — the window, keyboard, clock, tone and ROM file around the
  core (`minifb`, `rodio`, `anyhow`).
