# avm_core

The core of the Anoma Virtual Machine (AVM): an object-centric,
message-passing, transactional virtual machine, with its contracts proved by
Verus.

## Layout

- `src/` — the verified library.
  - `types`: values (`Val` and its model `ValView`), identifiers, metadata.
  - `instruction`: the layered instruction set and its constructors.
  - `error`: the error hierarchy, its conversions and its messages.
  - `trace`: events, log entries and their display text.
  - `store`: the persistent store, over `rustc_hash` maps behind small
    trusted wrappers (`store/fx.rs`, `store/named.rs`).
  - `vm`: the VM state, the pure function registry and the behavior registry.
  - `interpreter`: one handler per instruction family, `dispatch`, the
    transaction engine and the laws that span handlers (`interpreter/laws.rs`).
  - `tape`: the flat register program, its builder, the step function of the
    register machine, the control flow graph and its Mermaid rendering.
  - `transport`: the interface for calls to remote machines.
- `app/` — the code around the library that Verus does not check: interaction
  trees and their monad, the `avm_do!` notation, the DSL, the compiler from
  trees to tapes, the loops that run trees and tapes, the closure registries'
  glue, error types with `std::error::Error` (through `thiserror`) and
  serializable forms of values and traces (through `serde`).
- `tests/` — tests of the library.

`dispatch` executes every instruction that the state alone can execute and
hands back object calls and pure function calls; the loop in `app/` performs
them (running the callee's program, or the transport, or the function) and
gives the outcome to `finish_call` or `finish_pure_call`.
