//! The left/right labelling of a Merkle path as the tree display draws it.
//! The display derives each label from the low bit of a shifting index
//! counter; this convention is independent of the path-bit convention the
//! verifier uses, and the two need not coincide. Printing itself lives
//! outside this library.

use vstd::prelude::*;

verus! {

/// The index counter after `j` halvings.
pub open spec fn shifted_index(index: u64, j: nat) -> u64
    decreases j,
{
    if j == 0 {
        index
    } else {
        shifted_index(index, (j - 1) as nat) / 2
    }
}

/// Is the node at the given number of halvings labelled a left child?
pub open spec fn is_left_at(index: u64, j: nat) -> bool {
    shifted_index(index, j) % 2 == 1
}

/// The left/right labels of a Merkle path of the given depth, in
/// root-to-leaf order: the label nearest the root comes from the most
/// halved index.
pub fn merkle_path_labels(index: u64, depth: usize) -> (r: Vec<bool>)
    ensures
        r@.len() == depth,
        forall|i: int| 0 <= i < depth ==> r@[i] == is_left_at(index, (depth - 1 - i) as nat),
{
    let mut labels: Vec<bool> = Vec::with_capacity(depth);
    let mut idx = index;
    let mut j: usize = 0;
    while j < depth
        invariant
            j <= depth,
            labels@.len() == j,
            idx == shifted_index(index, j as nat),
            forall|k: int| 0 <= k < j ==> labels@[k] == is_left_at(index, k as nat),
        decreases depth - j,
    {
        labels.push(idx % 2 == 1);
        idx = idx / 2;
        j += 1;
    }
    let mut out: Vec<bool> = Vec::with_capacity(depth);
    let mut k: usize = depth;
    while k > 0
        invariant
            k <= depth,
            labels@.len() == depth,
            out@.len() == depth - k,
            forall|m: int| 0 <= m < depth ==> labels@[m] == is_left_at(index, m as nat),
            forall|i: int| 0 <= i < depth - k ==> out@[i] == is_left_at(
                index,
                (depth - 1 - i) as nat,
            ),
        decreases k,
    {
        k -= 1;
        out.push(labels[k]);
    }
    out
}

} // verus!
