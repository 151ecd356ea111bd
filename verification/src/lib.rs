//! Verification of storage-inclusion proofs for a Merkle-tree-backed
//! key/value store tied to an L1 batch checkpoint.
//!
//! The core pipeline derives a tree key from an account address and a
//! storage-slot key, extracts the bit-indexed traversal path from that key,
//! commits to the stored value as a leaf, and folds the supplied sibling
//! hashes bottom-up to reconstruct a candidate root, which is compared
//! against the expected root hash.

pub mod commands;

pub mod fees;

pub mod hashing;

pub mod hexutil;

pub mod proof_verification;

pub mod rpc;

pub mod visualizer;
