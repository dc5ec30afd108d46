# plasma

A client library for the Plasma AMM program on Solana, verified with Verus.

- `src/plasma/fixed.rs`, `src/plasma/fixed_order.rs`: the `I80F48` fixed-point
  number; the arithmetic is done by the `fixed` crate, and each operation's
  contract states what it does to the raw bits.
- `src/plasma/wire.rs`: little-endian integers and keys in byte buffers.
- `src/plasma/keys.rs`: the program's address, the addresses of the programs
  it calls, and program-derived addresses.
- `src/plasma/plasma_utils.rs`: parameter types, their Borsh bytes, the
  instructions, and the pool account's header.
- `src/lib.rs`: token account amounts and the pool state that a router keeps
  (`PlasmaAmm`), with its update and its swap instruction.
- `app/lib.rs`: the Jupiter `Amm` trait over the library.
