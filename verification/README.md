# chip8

A CHIP-8 interpreter core verified with Verus.

- `src/machine.rs`: the abstract `Machine` state, the instruction fields, one
  spec function per instruction (`spec_*`) with the inputs on which it runs
  without a fault (`ok_*`), the dispatch tables and one whole `cycle`.
- `src/chip8.rs`: the executable `Chip8`; each handler, the table lookups,
  `cycle`, `init_tables`, `new` and program loading are proved against the
  specs above through the view `Chip8@`.
- `src/laws.rs`: properties that span instructions (call/return, drawing twice,
  store/load, decimal digits, carry and borrow, the masked random byte, the
  font glyphs, the key wait, determinism of a cycle).
- `src/random.rs`: the one trusted call, `rand::random` for `Cxkk`.
- `app/main.rs`: the ggez window and the loader that reads a program file.
