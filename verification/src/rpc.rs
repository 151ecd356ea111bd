//! The data shapes the proof verifier consumes from its JSON-RPC
//! collaborators. The transport itself lives outside this library; these
//! records only carry the plain values the core works on.

use vstd::prelude::*;

verus! {

/// The envelope every JSON-RPC answer arrives in.
pub struct RpcResponse<T> {
    pub jsonrpc: String,
    pub result: Option<T>,
    pub error: Option<RpcError>,
    pub id: u32,
}

/// The error object a JSON-RPC answer may carry instead of a result.
pub struct RpcError {
    pub code: i32,
    pub message: String,
}

/// One storage-inclusion proof as the proof-fetch collaborator supplies it:
/// hex strings for the slot key, the stored value and the sibling digests
/// (root-to-leaf order), and the leaf's index within its subtree level.
pub struct StorageProof {
    pub key: String,
    pub value: String,
    pub index: u64,
    pub proof: Vec<String>,
}

/// A batch of storage proofs for one account address.
pub struct ProofResult {
    pub address: String,
    pub storage_proof: Vec<StorageProof>,
}

/// Details of one L1 batch; `root_hash` is the expected root the verifier
/// compares against.
pub struct L1BatchDetails {
    pub number: u32,
    pub timestamp: u64,
    pub l1_tx_count: u32,
    pub l2_tx_count: u32,
    pub root_hash: String,
    pub status: String,
    pub commit_tx_hash: Option<String>,
    pub committed_at: Option<String>,
    pub prove_tx_hash: Option<String>,
    pub proven_at: Option<String>,
    pub execute_tx_hash: Option<String>,
    pub executed_at: Option<String>,
    pub l1_gas_price: u64,
    pub l2_fair_gas_price: u64,
    pub base_system_contracts_hashes: BaseSystemContractsHashes,
}

/// The system-contract code hashes an L1 batch reports.
pub struct BaseSystemContractsHashes {
    pub bootloader: String,
    pub default_aa: String,
}

} // verus!
