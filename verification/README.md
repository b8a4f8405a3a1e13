# 6502 processor core, verified with Verus

A small 6502 interpreter (the subset used by the NES): registers A, X, Y, the status
byte, a program counter and 0xFFFF bytes of memory.

- `src/flags.rs`: the status register `CpuFlags` and its flag masks.
- `src/opcodes.rs`: addressing modes, instructions and the opcode table.
- `src/machine.rs`: the mathematical model (`CpuState`) and the meaning of every
  instruction, of one step and of a run, as spec functions.
- `src/cpu.rs`: the executable processor `CPU`; each method's contract is an equality with
  the model.
- `src/laws.rs`: properties proved of the model (read after write, ADC arithmetic,
  compare, increment undoing decrement, faults leaving the state alone, BRK halting, ...).

Where a processor built this way would meet an impossible access (address 0xFFFF, an
unknown opcode, `ASL A`, a program counter running past 0xFFFF), `step` and `run` return a
`CpuError` and leave the state as it was before the faulting instruction.
