# loader

An emulator and disassembler for a subset of the 8086 instruction set, for
DOS COM programs, verified with Verus.

- `src/isa.rs`: registers, operands and operations.
- `src/decoder.rs`: decoding instructions from memory; `decoded` specifies
  the encoding.
- `src/emulator.rs`: registers, flags, memory, the text screen and the
  execution of operations; `step` specifies what each operation does.
- `src/bios.rs`, `src/dos.rs`: the interrupt 10h and 21h services.
- `src/disassembler.rs`, `src/text.rs`: assembler text of operations and
  number formatting.
- `app/main.rs`: the command line: `loader FILE.COM` runs a program,
  `loader --disassemble FILE.COM` lists its instructions.
