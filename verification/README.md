# AG Coin

The verified core of a minimal Substrate solochain (the Polkadot SDK
solochain template), written in Verus.

- `src/pallet.rs`: the template pallet as a state machine, with the laws of
  its two calls.
- `src/runtime.rs`: the runtime's types, version, units and pallet parameters.
- `src/genesis.rs`, `src/json.rs`, `src/keys.rs`: the development and
  local-testnet genesis presets and their compact JSON patch.
- `src/chain_spec.rs`, `src/node.rs`, `src/era.rs`, `src/rpc.rs`: what the node
  decides: which chain specification, which benchmarks, which services, and the
  mortality of benchmark extrinsics.
- `app/`: the node binary (command line, services, RPC) around the library.
