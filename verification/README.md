# blockchain

Blocks, node votes and block validation for a chain of account blocks,
verified with Verus.

- `src/encoding.rs`: decimal renderings, UTF-8 bytes, lower-case hex (through `hex`).
- `src/crypto.rs`: Ed25519 signing and verification (through `ring`).
- `src/block.rs`, `src/block_signature.rs`: the data types, their models,
  byte encodings, hashes (from a caller-supplied Cryptonight digest) and signatures.
- `src/validation.rs`: the block validation rules over a context of what the
  node's configuration, stores and clock hold.
- `src/merkle_root.rs`: Merkle digests of chains (through `merkle`).
- `src/laws.rs`: properties that relate these operations.
- `app/`: the node-side reads and writes (stores, block files, clock,
  Cryptonight hashing, JSON) around the library.
