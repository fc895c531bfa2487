# nes_emu

A MOS 6502 / NES emulator core with a small debugger front end, written in
Verus: the CPU, the bus, the iNES cartridge parser, the disassembler, the hex
program editor's parser and formatter, and the debugger's run loop all carry
`requires` / `ensures` contracts that Verus proves.

## Layout

```
src/
  lib.rs           module list
  flags.rs         status flags and their bit laws
  bits.rs          bit-vector facts shared by the proofs
  bus.rs           CPU bus (2 KB mirrored RAM, cartridge dispatch) and its laws
  cartridge.rs     iNES parser and Mapper 0, with laws on mirroring and CHR-RAM
  instruction.rs   the 256-entry opcode table
  addressing.rs    the 12 addressing modes
  opcodes.rs       the 56 operations (plus the illegal-opcode handler)
  cpu.rs           registers, stack, reset / IRQ / NMI and the clock
  laws.rs          laws spanning operations: push/pop, JSR/RTS, interrupts/RTI, ...
  disassembler.rs  one-line disassembly of the instruction at an address
  program.rs       screen palette, sample program, hex formatting
  code_text.rs     parsing of hex program text, and the format/parse round trip
  emulator.rs      the debugger's machine: boot, reset, ticks, frames, input
app/
  main.rs          the eframe window around `emulator::Emulator`
tests/             executable tests of the library
```

Every contract is stated over spec models: `BusView` for the bus, the CPU
struct itself for registers, `EmulatorView` for the debugger state, and
`Seq`-based grammars for the program text. Randomness (the byte the sample
game reads at `$FE`) comes from `rand` through one trusted wrapper whose
contract only bounds the drawn value; every other step is verified for every
value it could draw.
