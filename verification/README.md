# solana_toolkit

Tools around SOL transfers on Solana, and an on-chain vault program, with their logic verified in
Verus.

- `src/` is the verified library: the decisions of the tools and of the program, each with its
  contract. What it needs of `solana-sdk` and `tonic` goes through a few trusted functions, whose
  doc comments say what is claimed of the call.
- `app/` runs the library: one program with the subcommands `balance`, `transfer`, `geyser` and
  `slots`, which talk to a node and read the configuration, and the Anchor program in
  `app/program.rs`.
- `tests/` runs the library with the real crates linked.

A transfer is a state machine: `TransferJob` says what to ask a node for next, and `Session` adds
the attempts. The program that runs them performs each action and hands back what came of it.
`app/node.rs` does so over RPC with the crate `solana-client`.
