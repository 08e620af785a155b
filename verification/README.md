# metaquity_runtime

The configuration of the Metaquity Network runtime as a verified Verus
library: units of time and currency, storage deposits, fee conversion, block
length and weight limits, the parameters of NFT fractionalization, hold
reasons and the runtime version. Each value or function carries a contract,
and the laws that relate them (deposits add up and grow with storage, normal
extrinsics never get more than the whole block, the time units agree with
the block time) are proof functions checked by Verus.

- `src/` — the library, verified by Verus. Calls into `sp-arithmetic`,
  `sp-weights`, `bounded-collections` and `frame-system` stand behind
  trusted wrappers whose contracts follow those crates' sources.
- `tests/` — tests on concrete values, run against the real outside crates.
- `app/` — the library's values in the FRAME and Substrate types (the SCALE
  encoding of `HoldReason`, `RuntimeVersion`, `PalletId`, `Weight`).
