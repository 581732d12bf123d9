# parachain_node

The verified core of a Substrate parachain node (an extended parachain
template with assets, a council and a sudo key).

- `src/` is the library, verified with Verus:
  - `currency`, `common`: balance units, the two storage-deposit formulas and
    the weight-per-gas ratio.
  - `cli`: the `--ethapi` flags and the EVM tracing configuration.
  - `keys`: development keys derived from seeds through sp-core, and the byte
    order by which accounts are sorted.
  - `chain_spec` (with `devnet` and `mainnet`): chain specifications and
    genesis states as plain plans, including the multisig sudo key.
  - `rpc`, `service`: which RPC modules the node serves and the decisions it
    takes while starting.
- `tests/` runs the library on concrete values.
- `app/` is the command-line shell around the library.
