# emunes

A 6502 CPU core for a NES emulator, written in Verus.

- `src/cpu/semantics.rs` gives the instruction set a mathematical meaning: a
  `CpuState` (registers, flags, 64 KiB of memory) and spec functions for operand
  resolution, each instruction, one fetch-decode-execute step, and runs that halt.
- `src/cpu/mod.rs` is the executable `Cpu`; every method is proved to match the
  semantics (memory access, `load`, `reset`, `step`, `run`, ...).
- `src/cpu/instruction.rs` holds the official opcode table, `src/cpu/status.rs`
  the status register and its byte form, `src/cpu/arith.rs` the bit-level facts
  that connect the two.
- `src/bus.rs` is the mirrored 2 KiB work-RAM bus; `src/game.rs` the screen and
  keyboard mapping of the demo game.
- `app/main.rs` runs the demo game with SDL2.
