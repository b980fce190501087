# avalanche_types

Avalanche data types for L1 validator management, with their binary encodings
and the rules around them, written in Verus: every function of the library
states its behaviour in `requires`/`ensures` and Verus proves it.

## Layout

- `src/ids`: 32-byte and 20-byte identifiers.
- `src/packer.rs`: big-endian integers and length-prefixed byte strings, as
  spec functions and as verified writers and readers.
- `src/codec.rs`: the type registries of the P-Chain codec and of Warp payloads.
- `src/warp`: Warp messages (encoding, IDs, signer bit sets, quorum and BLS
  verification) and their payloads, with round-trip lemmas.
- `src/platformvm`: fees (complexity dimensions, gas, fee), L1 validators,
  owners and conversion data, and the five L1 validator transactions.
- `src/txs.rs`: the base transaction, its encoding and signing metadata.
- `src/key`: BLS keys and signatures, secp256k1 inputs and credentials, and
  secp256r1 (P-256) keys.
- `src/hexstr.rs`: hexadecimal text.
- `app/`: serde forms of the types, display texts, conversions to the `p256`
  crate's key types, and the asynchronous signing of a ConvertSubnetToL1Tx.

Calls into `ring`, `hex`, `p256` and `blst` go through small trusted wrappers
whose contracts say what those crates do; where a result takes pages to state
(a digest, a curve operation), the contract names it with an uninterpreted
spec function and the library's contracts speak of that name.
