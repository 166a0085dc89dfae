# gboy_core

The core of a Game Boy emulator, written in Verus: the CPU's registers, the
64 KiB memory bus, instruction decoding and execution, and the video RAM.

Layout:

- `src/lib.rs`: `GBoy`, the console (key states and CPU), with `new` and `reset`.
- `src/cpu/registers.rs`: the flags register and its byte encoding, the eight-bit
  registers and their 16-bit pairs, and the operands they name.
- `src/cpu/memory_bus.rs`: the address space.
- `src/cpu/instruction.rs`: the instruction set and the opcode decoder.
- `src/cpu/alu.rs`: what every arithmetic, logic, bit and shift operation
  computes, stated over the integers, with the bit-level facts behind it.
- `src/cpu/cpu.rs`: the CPU state, the meaning of each instruction
  (`execute_spec`, `step_spec`) and the executable CPU proved against it.
- `src/cpu/gpu.rs`: video RAM and the tile set.

The public proof functions named `law_*` state properties of the whole
machine: encoding and decoding the flags, register pairs and operands read
back what was written, a pop undoes a push, rotations and swaps undo each
other, DAA after a BCD addition or subtraction gives the decimal result, and
executing an instruction keeps the memory the size of the address space.
