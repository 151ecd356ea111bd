//! The options the proof command accepts. Argument parsing itself lives
//! outside this library; this record only carries the parsed values.

use vstd::prelude::*;

verus! {

/// What one proof request asks for: the account, the storage keys, the L1
/// batch, and whether to verify and/or visualize each fetched proof.
pub struct ProofArgs {
    pub address: String,
    pub keys: Vec<String>,
    pub batch: u32,
    pub verify: bool,
    pub visualize: bool,
}

} // verus!
