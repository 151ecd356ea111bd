//! The proof-verification core: tree-key derivation, path extraction,
//! leaf commitment, and the bottom-up root fold that decides whether a
//! stored value is committed under an expected root.

use crate::hashing::blake2s_of;
use crate::hashing::blake2s256;
use crate::hexutil::DecodeError;
use crate::hexutil::bytes_of_hex;
use crate::hexutil::decode_hex;
use crate::hexutil::decode_hex_fixed;
use crate::hexutil::fixed_decode_error;
use crate::hexutil::hex_chars_of;
use crate::hexutil::hex_encode;
use crate::hexutil::strip_hex_prefix;
use crate::hexutil::valid_hex;
use crate::rpc::StorageProof;
use vstd::prelude::*;
use vstd::string::StringExecFns;

verus! {

/// Does the string decode as hex once every leading `0x` is stripped?
pub open spec fn hex_decodable(s: Seq<char>) -> bool {
    valid_hex(strip_hex_prefix(s))
}

/// The bytes a `0x`-prefixed hex string denotes.
pub open spec fn decoded_hex(s: Seq<char>) -> Seq<u8> {
    bytes_of_hex(strip_hex_prefix(s))
}

/// A run of `n` zero bytes.
pub open spec fn zero_bytes(n: nat) -> Seq<u8> {
    Seq::new(n, |i: int| 0u8)
}

/// The hashed preimage of a tree key: 12 zero bytes padding the address
/// to the slot key's width, then the address, then the slot key.
pub open spec fn key_preimage(addr: Seq<u8>, slot: Seq<u8>) -> Seq<u8> {
    zero_bytes(12) + addr + slot
}

/// The tree key an (address, storage-slot key) pair derives to.
pub open spec fn tree_key_of(addr: Seq<u8>, slot: Seq<u8>) -> Seq<u8> {
    blake2s_of(key_preimage(addr, slot))
}

/// Bit `i` of a byte, counting from the least-significant end.
pub open spec fn byte_bit(b: u8, i: u8) -> bool {
    (b >> i) & 1 == 1
}

/// The path decisions a tree key encodes: bytes are read from the last to
/// the first, and each byte yields its bits least-significant first.
pub open spec fn key_bits_of(key: Seq<u8>) -> Seq<bool> {
    Seq::new(key.len() * 8, |i: int| byte_bit(key[key.len() - 1 - i / 8], (i % 8) as u8))
}

/// The 8-byte big-endian encoding of a slot index.
pub open spec fn u64_be_bytes(n: u64) -> Seq<u8> {
    Seq::new(8, |i: int| ((n >> ((56 - 8 * i) as u64)) & 0xff) as u8)
}

/// The leaf commitment of a slot index and a stored value.
pub open spec fn leaf_hash_of(index: u64, value: Seq<u8>) -> Seq<u8> {
    blake2s_of(u64_be_bytes(index) + value)
}

/// The path bit consumed at fold depth `d`; a depth beyond the extracted
/// bits counts as false.
pub open spec fn path_bit(bits: Seq<bool>, d: int) -> bool {
    if 0 <= d < bits.len() {
        bits[d]
    } else {
        false
    }
}

/// One fold step: a true bit puts the running digest in the right-child
/// position, a false bit in the left-child position.
pub open spec fn fold_step(current: Seq<u8>, bit: bool, sibling: Seq<u8>) -> Seq<u8> {
    if bit {
        blake2s_of(current + sibling)
    } else {
        blake2s_of(sibling + current)
    }
}

/// The running digest after the first `n` fold steps.
pub open spec fn fold_upto(leaf: Seq<u8>, bits: Seq<bool>, siblings: Seq<Seq<u8>>, n: int) -> Seq<
    u8,
>
    decreases n,
{
    if n <= 0 {
        leaf
    } else {
        fold_step(fold_upto(leaf, bits, siblings, n - 1), path_bit(bits, n - 1), siblings[n - 1])
    }
}

/// The candidate root reconstructed from a leaf commitment, the path bits,
/// and the whole sibling list.
pub open spec fn root_of(leaf: Seq<u8>, bits: Seq<bool>, siblings: Seq<Seq<u8>>) -> Seq<u8> {
    fold_upto(leaf, bits, siblings, siblings.len() as int)
}

/// Encode the 8-byte big-endian form of a slot index.
pub fn u64_to_be_bytes(n: u64) -> (r: Vec<u8>)
    ensures
        r@ == u64_be_bytes(n),
{
    let mut out: Vec<u8> = Vec::with_capacity(8);
    let mut i: usize = 0;
    while i < 8
        invariant
            i <= 8,
            out@.len() == i,
            forall|k: int| 0 <= k < i ==> out@[k] == u64_be_bytes(n)[k],
        decreases 8 - i,
    {
        let shift: u64 = 56 - 8 * (i as u64);
        out.push(((n >> shift) & 0xff) as u8);
        i += 1;
    }
    assert(out@ =~= u64_be_bytes(n));
    out
}

/// Extract the path decisions from a tree key: bytes from the last to the
/// first, bits of each byte least-significant first.
pub fn get_key_bits(key: &[u8]) -> (r: Vec<bool>)
    ensures
        r@ == key_bits_of(key@),
{
    let n = key.len();
    let mut bits: Vec<bool> = Vec::with_capacity(256);
    let mut j: usize = 0;
    while j < n
        invariant
            j <= n,
            n == key@.len(),
            bits@.len() == 8 * j,
            forall|m: int| 0 <= m < 8 * j ==> bits@[m] == key_bits_of(key@)[m],
        decreases n - j,
    {
        let byte = key[n - 1 - j];
        let mut i: usize = 0;
        while i < 8
            invariant
                i <= 8,
                j < n,
                n == key@.len(),
                byte == key@[n - 1 - j],
                bits@.len() == 8 * j + i,
                forall|m: int| 0 <= m < 8 * j + i ==> bits@[m] == key_bits_of(key@)[m],
            decreases 8 - i,
        {
            bits.push((byte >> (i as u8)) & 1 == 1);
            i += 1;
        }
        j += 1;
    }
    assert(bits@ =~= key_bits_of(key@));
    bits
}

/// The first decoding error among an address expected to hold 20 bytes
/// and a storage-slot key expected to hold 32, the address checked first.
pub open spec fn key_decode_error(addr: Seq<char>, slot: Seq<char>) -> Option<DecodeError> {
    if !(hex_decodable(addr) && decoded_hex(addr).len() == 20) {
        Some(fixed_decode_error(addr, 20))
    } else if !(hex_decodable(slot) && decoded_hex(slot).len() == 32) {
        Some(fixed_decode_error(slot, 32))
    } else {
        None
    }
}

/// Derive the tree key of an account address and a storage-slot key, both
/// given as hex strings: hash 12 zero bytes, the 20 address bytes and the
/// 32 slot-key bytes.
pub fn compute_key(account_address: &str, storage_key: &str) -> (r: Result<Vec<u8>, DecodeError>)
    ensures
        r is Ok <==> key_decode_error(account_address@, storage_key@) is None,
        r is Ok ==> r->Ok_0@ == tree_key_of(
            decoded_hex(account_address@),
            decoded_hex(storage_key@),
        ) && r->Ok_0@.len() == 32,
        r is Err ==> Some(r->Err_0) == key_decode_error(account_address@, storage_key@),
{
    let account_address_bytes = decode_hex_fixed(account_address, 20)?;
    let storage_key_bytes = decode_hex_fixed(storage_key, 32)?;
    let mut data: Vec<u8> = vec![0u8; 12];
    data.extend_from_slice(account_address_bytes.as_slice());
    data.extend_from_slice(storage_key_bytes.as_slice());
    assert(data@ =~= key_preimage(decoded_hex(account_address@), decoded_hex(storage_key@)));
    Ok(blake2s256(data.as_slice()))
}

/// Commit to a stored value at its slot index: hash the 8-byte big-endian
/// index followed by the raw value bytes.
pub fn compute_leaf_hash(storage_proof: &StorageProof) -> (r: Result<Vec<u8>, DecodeError>)
    ensures
        r is Ok <==> hex_decodable(storage_proof.value@),
        r is Ok ==> r->Ok_0@ == leaf_hash_of(
            storage_proof.index,
            decoded_hex(storage_proof.value@),
        ) && r->Ok_0@.len() == 32,
        r is Err ==> r == Err::<Vec<u8>, DecodeError>(DecodeError::InvalidHex),
{
    let value_bytes = decode_hex(storage_proof.value.as_str())?;
    let mut leaf_value = u64_to_be_bytes(storage_proof.index);
    leaf_value.extend_from_slice(value_bytes.as_slice());
    assert(leaf_value@ =~= u64_be_bytes(storage_proof.index) + decoded_hex(
        storage_proof.value@,
    ));
    Ok(blake2s256(leaf_value.as_slice()))
}

/// The sibling hashes of a storage proof, as the hex strings supplied.
pub open spec fn sibling_strings(sp: &StorageProof) -> Seq<Seq<char>> {
    sp.proof@.map_values(|s: String| s@)
}

/// The sibling hashes of a storage proof, decoded to bytes.
pub open spec fn siblings_decoded(sp: &StorageProof) -> Seq<Seq<u8>> {
    sibling_strings(sp).map_values(|s: Seq<char>| decoded_hex(s))
}

/// Is one sibling-hash string well formed: decodable hex of 32 bytes?
pub open spec fn sibling_ok(s: Seq<char>) -> bool {
    hex_decodable(s) && decoded_hex(s).len() == 32
}

/// The first decoding error among the sibling-hash strings, in the order
/// supplied.
pub open spec fn sibling_decode_error(sibs: Seq<Seq<char>>) -> Option<DecodeError>
    decreases sibs.len(),
{
    if sibs.len() == 0 {
        None
    } else if !sibling_ok(sibs[0]) {
        Some(fixed_decode_error(sibs[0], 32))
    } else {
        sibling_decode_error(sibs.skip(1))
    }
}

/// When the first `d` sibling strings are well formed, the first decoding
/// error among them all is the first one at or after position `d`.
pub proof fn lemma_sibling_error_skip(sibs: Seq<Seq<char>>, d: int)
    requires
        0 <= d <= sibs.len(),
        forall|i: int| 0 <= i < d ==> sibling_ok(#[trigger] sibs[i]),
    ensures
        sibling_decode_error(sibs) == sibling_decode_error(sibs.skip(d)),
    decreases d,
{
    if d > 0 {
        assert(sibling_ok(sibs[0]));
        assert forall|i: int| 0 <= i < d - 1 implies sibling_ok(#[trigger] sibs.skip(1)[i]) by {
            assert(sibs.skip(1)[i] == sibs[i + 1]);
        }
        lemma_sibling_error_skip(sibs.skip(1), d - 1);
        assert(sibs.skip(1).skip(d - 1) =~= sibs.skip(d));
        assert(sibling_decode_error(sibs) == sibling_decode_error(sibs.skip(1)));
    } else {
        assert(sibs.skip(0) =~= sibs);
    }
}

/// The first decoding error among all the hex inputs of one verification,
/// checked in the order the verifier consumes them: the stored value, then
/// the address, then the storage-slot key, then each sibling hash.
pub open spec fn verify_decode_error(
    sp: &StorageProof,
    addr: Seq<char>,
    slot: Seq<char>,
) -> Option<DecodeError> {
    if !hex_decodable(sp.value@) {
        Some(DecodeError::InvalidHex)
    } else if key_decode_error(addr, slot) is Some {
        key_decode_error(addr, slot)
    } else {
        sibling_decode_error(sibling_strings(sp))
    }
}

/// The `0x`-prefixed lowercase hex string a digest is reported as.
pub open spec fn root_hex_string(d: Seq<u8>) -> Seq<char> {
    seq!['0', 'x'] + hex_chars_of(d)
}

/// What a structurally valid verification returns: whether the candidate
/// root reconstructed from the decoded inputs, encoded as a `0x`-prefixed
/// hex string, equals the expected root string exactly.
pub open spec fn verify_spec(
    sp: &StorageProof,
    root_hash: Seq<char>,
    addr: Seq<char>,
    slot: Seq<char>,
) -> bool {
    root_hex_string(
        root_of(
            leaf_hash_of(sp.index, decoded_hex(sp.value@)),
            key_bits_of(tree_key_of(decoded_hex(addr), decoded_hex(slot))),
            siblings_decoded(sp),
        ),
    ) == root_hash
}

/// Verify one storage proof against an expected root hash: derive the tree
/// key, extract its path bits, commit to the stored value, fold the sibling
/// hashes in the order supplied, and compare the reconstructed root's hex
/// encoding with the expected root string. A mismatch is the `false`
/// result, not an error; only malformed input is an error.
pub fn verify_proof(
    storage_proof: &StorageProof,
    root_hash: &str,
    account_address: &str,
    storage_key: &str,
) -> (r: Result<bool, DecodeError>)
    ensures
        r is Ok <==> verify_decode_error(storage_proof, account_address@, storage_key@) is None,
        r is Ok ==> r->Ok_0 == verify_spec(
            storage_proof,
            root_hash@,
            account_address@,
            storage_key@,
        ),
        r is Err ==> Some(r->Err_0) == verify_decode_error(
            storage_proof,
            account_address@,
            storage_key@,
        ),
{
    let mut current_hash = compute_leaf_hash(storage_proof)?;
    let key = compute_key(account_address, storage_key)?;
    let key_bits: Vec<bool> = get_key_bits(key.as_slice());

    let ghost leaf = leaf_hash_of(storage_proof.index, decoded_hex(storage_proof.value@));
    let ghost sib_strs = sibling_strings(storage_proof);
    let ghost sibs = siblings_decoded(storage_proof);

    let n = storage_proof.proof.len();
    let mut depth: usize = 0;
    while depth < n
        invariant
            depth <= n,
            n == storage_proof.proof@.len(),
            sib_strs == sibling_strings(storage_proof),
            sibs == siblings_decoded(storage_proof),
            leaf == leaf_hash_of(storage_proof.index, decoded_hex(storage_proof.value@)),
            hex_decodable(storage_proof.value@),
            key_decode_error(account_address@, storage_key@) is None,
            key_bits@ == key_bits_of(
                tree_key_of(decoded_hex(account_address@), decoded_hex(storage_key@)),
            ),
            forall|i: int| 0 <= i < depth ==> sibling_ok(#[trigger] sib_strs[i]),
            current_hash@ == fold_upto(leaf, key_bits@, sibs, depth as int),
        decreases n - depth,
    {
        let sibling_hash = match decode_hex_fixed(storage_proof.proof[depth].as_str(), 32) {
            Ok(v) => v,
            Err(e) => {
                proof {
                    lemma_sibling_error_skip(sib_strs, depth as int);
                }
                return Err(e);
            },
        };

        let bit = if depth < key_bits.len() {
            key_bits[depth]
        } else {
            false
        };

        let mut combined: Vec<u8> = Vec::with_capacity(64);
        if bit {
            combined.extend_from_slice(current_hash.as_slice());
            combined.extend_from_slice(sibling_hash.as_slice());
            assert(combined@ =~= current_hash@ + sibling_hash@);
        } else {
            combined.extend_from_slice(sibling_hash.as_slice());
            combined.extend_from_slice(current_hash.as_slice());
            assert(combined@ =~= sibling_hash@ + current_hash@);
        }
        current_hash = blake2s256(combined.as_slice());
        depth += 1;
    }

    proof {
        lemma_sibling_error_skip(sib_strs, n as int);
        assert(sib_strs.skip(n as int).len() == 0);
    }

    let encoded = hex_encode(current_hash.as_slice());
    let reconstructed = String::from_str("0x").concat(encoded.as_str());
    let expected: String = root_hash.to_owned();
    proof {
        reveal_strlit("0x");
        assert(reconstructed@ =~= root_hex_string(current_hash@));
    }
    Ok(reconstructed == expected)
}

/// Law: key derivation, leaf commitment and the root fold are each
/// deterministic — two results computed from the same inputs are equal.
pub proof fn lemma_determinism(
    addr: Seq<u8>,
    slot: Seq<u8>,
    index: u64,
    value: Seq<u8>,
    leaf: Seq<u8>,
    bits: Seq<bool>,
    siblings: Seq<Seq<u8>>,
    k1: Seq<u8>,
    k2: Seq<u8>,
    l1: Seq<u8>,
    l2: Seq<u8>,
    r1: Seq<u8>,
    r2: Seq<u8>,
)
    requires
        k1 == tree_key_of(addr, slot),
        k2 == tree_key_of(addr, slot),
        l1 == leaf_hash_of(index, value),
        l2 == leaf_hash_of(index, value),
        r1 == root_of(leaf, bits, siblings),
        r2 == root_of(leaf, bits, siblings),
    ensures
        k1 == k2,
        l1 == l2,
        r1 == r2,
{
}

/// Law: with an empty sibling list the candidate root is the leaf
/// commitment itself, so verification succeeds exactly when the
/// `0x`-prefixed hex encoding of the leaf commitment equals the expected
/// root string.
pub proof fn lemma_empty_proof_identity(
    sp: &StorageProof,
    root_hash: Seq<char>,
    addr: Seq<char>,
    slot: Seq<char>,
)
    requires
        sp.proof@.len() == 0,
    ensures
        verify_spec(sp, root_hash, addr, slot) == (root_hex_string(
            leaf_hash_of(sp.index, decoded_hex(sp.value@)),
        ) == root_hash),
{
    assert(siblings_decoded(sp).len() == 0);
}

/// Law: with exactly one sibling hash `s` and leaf commitment `leaf`, the
/// candidate root is `Hash(leaf || s)` when the first path bit is true and
/// `Hash(s || leaf)` when it is false.
pub proof fn lemma_depth_one_fold(leaf: Seq<u8>, bits: Seq<bool>, s: Seq<u8>)
    requires
        bits.len() > 0,
    ensures
        root_of(leaf, bits, seq![s]) == if bits[0] {
            blake2s_of(leaf + s)
        } else {
            blake2s_of(s + leaf)
        },
{
    let sibs = seq![s];
    assert(fold_upto(leaf, bits, sibs, 0) == leaf);
    assert(root_of(leaf, bits, sibs) == fold_step(leaf, path_bit(bits, 0), sibs[0]));
    assert(sibs[0] == s);
}

} // verus!
