# tock_registers

Typed access to hardware registers and their bitfields, written in Verus and proved against its
contracts.

- `fields`: `Field`, `FieldValue` and `LocalRegisterCopy`, the bitfield operations on register
  values, for every unsigned width (`UIntLike`), with the laws of `modify`, `write` and field
  reads.
- `read`, `write`, `unsafe_read`, `unsafe_write`: the register operation traits and their
  bitfield methods; `BusRead`/`BusWrite` for buses.
- `bus`, `mmio`, `array`, `internal`: addresses and buses, the MMIO address types, register
  spans and register arrays (`RealRegisterArray`), `RegisterSender`.
- `fake_register`: `FakeRegister` and `FakeRegisterArray` for unit tests.
- `debug`: `RegisterDebugValue`, what the `debug` methods return for printing.
- `codegen`: the decisions behind the code generated for register layouts. For register
  blocks: the offset checks and block sizes (with the laws that aliased fields take no part in
  them, that an accepted block has no gaps and contains its fields), and for each register field
  its kind, bus bound, length types and where its offset constant goes. For single registers:
  the shape of the module. Also array length types, allowed lints and doc comments.

`app/` holds what is ordinary Rust: volatile MMIO loads and stores, assembling the tokens of the
generated modules from the generator's decisions, and the tool that expands register-map macros
in a source file.
