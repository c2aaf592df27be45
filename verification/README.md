# wallet_contract

The contract logic of a Mimblewimble (Grin) wallet, written in Verus. The
functions in `src/` carry contracts that Verus proves, except the small
wrappers in `src/crypto.rs` that call outside crates: their contracts are
trusted, stated from the crates' source and documentation.

- `src/slate.rs`: the slate and its participant entries, the order in which
  a transaction keeps its inputs and outputs, the round-two signature,
  finalization and the offset.
- `src/contract/slate.rs`: the contract steps (joining with our keys,
  signing, adding and checking payment proofs, contributing inputs and
  outputs, advancing the state, finalizing), with the laws they keep.
- `src/contract/proofs.rs`: invoice payment proofs, their binary signing
  format, the promise signature and the check against a kernel.
- `src/contract/actions/view.rs`: the contract view of a received slate.
- `src/mwixnet/`: mixnet request types and the hex form of server keys.
- `src/crypto.rs`: the primitives of outside crates (secp256k1, ed25519,
  blake2b, byteorder, chrono, hex), each behind one small function whose
  contract is trusted.
- `app/`: what Verus does not see: the interface to wallet storage (which
  the wallet implements), the clock, serde forms of the library types.
- `tests/`: tests run against the real outside crates.
