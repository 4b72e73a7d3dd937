# transfer_hooks

The logic of two token-2022 transfer-hook programs, verified with Verus.

- `transfer_hook`: a hook that lets a transfer through only to a whitelisted
  destination account, with the instructions that manage the whitelist and a
  check on the transferred amount.
- `transfer_hook_dispatcher`: a hook that, on each transfer of a mint, invokes
  every hook program registered for that mint and still on a program-wide
  whitelist kept by an administrator; a program can be registered only while
  it is on that whitelist.

`src/` holds the verified library: the accounts as plain data, each
instruction as a function with its contract, and the properties that span
instructions (`laws.rs` in each program). `src/runtime/` holds the few calls
into the runtime's libraries (SHA-256, token-account and instruction decoding,
extra-account lists), each with the contract the library relies on.

`app/` holds what touches the chain: account (de)serialization, the
framework's signer and authority constraints, sysvars and cross-program
invocations.
