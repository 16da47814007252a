//! Blocks, block signatures and block validation for a chain of account
//! blocks: canonical byte encodings, block hashes, Ed25519 signatures,
//! Merkle digests over chains and the validation rules that a node applies
//! to an incoming block.
#![allow(non_snake_case, non_camel_case_types)]

pub mod block;
pub mod block_signature;
pub mod crypto;
pub mod encoding;
pub mod validation;
pub mod merkle_root;
pub mod laws;
