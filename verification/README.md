# iris

Runtime components of Iris, a React Native JavaScript runtime experiment,
written in Verus with machine-checked contracts.

- `src/engine.rs`: engine identity and compatibility mode.
- `src/hbc/`: a zero-copy validator for Hermes bytecode (HBC) buffers. The
  file header, the fifteen structured sections, every function header,
  instruction stream, operand reference, switch table, exception handler
  table and debug source location stream are checked; each check is stated
  as a spec function and the first failing check decides the `ParseError`.
  `laws.rs` states what every successfully parsed buffer satisfies.
- `src/qjs.rs`: the QuickJS benchmark surface: options, cases, and the
  FNV-1a fingerprint of the benchmark script.
- `src/android.rs`: bytecode metadata for host platforms.
- `app/`: the unverified host side: the QuickJS benchmark runner, and
  command-line inspection of bytecode bundles.
- `tests/`: scenarios on hand-assembled bytecode buffers.
