//! SHA-256 commitments: the digest itself comes from `solana_program::hash`,
//! the domain separation and the sorted-pair combination are defined here.
use vstd::prelude::*;

verus! {

/// Number of bytes in a digest.
pub const HASH_BYTES: usize = 32;

/// Prefix byte of a leaf commitment.
pub const LEAF_PREFIX: u8 = 0;

/// Prefix byte of an interior-node commitment.
pub const INTERMEDIATE_PREFIX: u8 = 1;

/// The SHA-256 digest of the concatenation of `vals`, as
/// `solana_program::hash::hashv` computes it.
pub uninterp spec fn hashv_digest(vals: Seq<Seq<u8>>) -> Seq<u8>;

/// The byte strings behind a slice of byte slices.
pub open spec fn parts_view(vals: Seq<&[u8]>) -> Seq<Seq<u8>> {
    Seq::new(vals.len(), |i: int| vals[i]@)
}

/// Calls `solana_program::hash::hashv`: feeds every slice of `vals`, in order,
/// to one SHA-256 state and hands back the 32 bytes of the digest. Nothing
/// is claimed of the digest beyond its being a function of the slices' bytes.
#[verifier::external_body]
pub(crate) fn hashv(vals: &[&[u8]]) -> (digest: [u8; 32])
    ensures
        digest@ == hashv_digest(parts_view(vals@)),
{
    solana_program::hash::hashv(vals).to_bytes()
}

/// Drives `solana_program::hash::Hasher` over one byte string: a fresh
/// hasher, one `hash` call, then `result`. The source of `hashv` shows this
/// to be the digest of the single-part list.
#[verifier::external_body]
pub(crate) fn hasher_digest(val: &[u8]) -> (digest: [u8; 32])
    ensures
        digest@ == hashv_digest(seq![val@]),
{
    let mut hasher = solana_program::hash::Hasher::default();
    hasher.hash(val);
    hasher.result().to_bytes()
}

/// The bytes of a list of byte strings, one string after the other.
pub open spec fn joined(parts: Seq<Seq<u8>>) -> Seq<u8>
    decreases parts.len(),
{
    if parts.len() == 0 {
        Seq::empty()
    } else {
        joined(parts.drop_last()) + parts.last()
    }
}

/// Lexicographic order on byte strings, the order Rust gives to `[u8; 32]`.
pub open spec fn lex_le(a: Seq<u8>, b: Seq<u8>) -> bool
    decreases a.len(),
{
    if a.len() == 0 {
        true
    } else if b.len() == 0 {
        false
    } else if a[0] != b[0] {
        a[0] < b[0]
    } else {
        lex_le(a.drop_first(), b.drop_first())
    }
}

/// SHA-256 of the concatenation of `parts`, as a total function into the
/// 32-byte strings. It is `hashv_digest` wherever that has 32 bytes, which
/// is everywhere a digest was ever computed: the digest type has 32 bytes.
pub open spec fn sha256(parts: Seq<Seq<u8>>) -> Seq<u8> {
    let digest = hashv_digest(parts);
    if digest.len() == HASH_BYTES {
        digest
    } else {
        Seq::new(HASH_BYTES as nat, |i: int| 0u8)
    }
}

/// The parts hashed for a leaf: the leaf prefix, then the item.
pub open spec fn leaf_parts(item: Seq<u8>) -> Seq<Seq<u8>> {
    seq![seq![LEAF_PREFIX], item]
}

/// The parts hashed for an interior node: the node prefix, then the left
/// and the right child.
pub open spec fn node_parts(left: Seq<u8>, right: Seq<u8>) -> Seq<Seq<u8>> {
    seq![seq![INTERMEDIATE_PREFIX], left, right]
}

/// The parts hashed for the sorted-pair combination of `a` and `b`.
pub open spec fn sorted_parts(a: Seq<u8>, b: Seq<u8>) -> Seq<Seq<u8>> {
    if lex_le(a, b) {
        node_parts(a, b)
    } else {
        node_parts(b, a)
    }
}

/// Commitment to one tree item: `H(0x00 || item)`.
pub open spec fn leaf_node(item: Seq<u8>) -> Seq<u8> {
    sha256(leaf_parts(item))
}

/// Positional combination of two children: `H(0x01 || left || right)`.
pub open spec fn ordered_node(left: Seq<u8>, right: Seq<u8>) -> Seq<u8> {
    sha256(node_parts(left, right))
}

/// Sorted-pair combination of two children: `H(0x01 || min || max)` under
/// `lex_le`, so that the result does not depend on which child is left.
pub open spec fn node_hash(a: Seq<u8>, b: Seq<u8>) -> Seq<u8> {
    sha256(sorted_parts(a, b))
}

/// Commitment to a member identity: `H(0x00 || H(identity))`.
pub open spec fn leaf_hash(identity: Seq<u8>) -> Seq<u8> {
    leaf_node(sha256(seq![identity]))
}

/// `lex_le` is total.
pub proof fn lemma_lex_le_total(a: Seq<u8>, b: Seq<u8>)
    ensures
        lex_le(a, b) || lex_le(b, a),
    decreases a.len(),
{
    if a.len() > 0 && b.len() > 0 && a[0] == b[0] {
        lemma_lex_le_total(a.drop_first(), b.drop_first());
    }
}

/// `lex_le` is antisymmetric.
pub proof fn lemma_lex_le_antisymmetric(a: Seq<u8>, b: Seq<u8>)
    requires
        lex_le(a, b),
        lex_le(b, a),
    ensures
        a == b,
    decreases a.len(),
{
    if a.len() == 0 || b.len() == 0 {
        assert(a =~= b);
    } else {
        lemma_lex_le_antisymmetric(a.drop_first(), b.drop_first());
        assert(a =~= seq![a[0]] + a.drop_first());
        assert(b =~= seq![b[0]] + b.drop_first());
    }
}

/// The sorted-pair combination is commutative.
pub proof fn lemma_node_hash_commutative(a: Seq<u8>, b: Seq<u8>)
    ensures
        node_hash(a, b) == node_hash(b, a),
{
    lemma_lex_le_total(a, b);
    if lex_le(a, b) && lex_le(b, a) {
        lemma_lex_le_antisymmetric(a, b);
    }
}

/// Compares two digests byte by byte.
pub fn hash_le(a: &[u8; 32], b: &[u8; 32]) -> (r: bool)
    ensures
        r == lex_le(a@, b@),
{
    let mut i: usize = 0;
    assert(a@.skip(0) =~= a@ && b@.skip(0) =~= b@);
    while i < 32
        invariant
            i <= 32,
            lex_le(a@, b@) == lex_le(a@.skip(i as int), b@.skip(i as int)),
        decreases 32 - i,
    {
        proof {
            let x = a@.skip(i as int);
            let y = b@.skip(i as int);
            assert(x[0] == a@[i as int]);
            assert(y[0] == b@[i as int]);
            assert(x.drop_first() =~= a@.skip(i + 1));
            assert(y.drop_first() =~= b@.skip(i + 1));
        }
        if a[i] != b[i] {
            return a[i] < b[i];
        }
        i += 1;
    }
    true
}

/// Tells whether two digests hold the same bytes.
pub fn hash_eq(a: &[u8; 32], b: &[u8; 32]) -> (r: bool)
    ensures
        r == (a@ == b@),
{
    let mut i: usize = 0;
    while i < 32
        invariant
            i <= 32,
            forall|k: int| 0 <= k < i ==> a@[k] == b@[k],
        decreases 32 - i,
    {
        if a[i] != b[i] {
            return false;
        }
        i += 1;
    }
    assert(a@ =~= b@);
    true
}

/// Computes the leaf commitment `H(0x00 || item)`.
pub fn hash_leaf(item: &[u8]) -> (digest: [u8; 32])
    ensures
        digest@ == leaf_node(item@),
{
    let prefix: [u8; 1] = [LEAF_PREFIX];
    let parts: [&[u8]; 2] = [prefix.as_slice(), item];
    let digest = hashv(parts.as_slice());
    proof {
        assert(prefix@ =~= seq![LEAF_PREFIX]);
        assert(parts@[0]@ == prefix@);
        assert(parts@[1]@ == item@);
        assert(parts_view(parts@) =~= leaf_parts(item@));
    }
    digest
}

/// Computes the positional combination `H(0x01 || left || right)`.
pub fn hash_intermediate(left: &[u8; 32], right: &[u8; 32]) -> (digest: [u8; 32])
    ensures
        digest@ == ordered_node(left@, right@),
{
    let prefix: [u8; 1] = [INTERMEDIATE_PREFIX];
    let parts: [&[u8]; 3] = [prefix.as_slice(), left.as_slice(), right.as_slice()];
    let digest = hashv(parts.as_slice());
    proof {
        assert(prefix@ =~= seq![INTERMEDIATE_PREFIX]);
        assert(parts@[0]@ == prefix@);
        assert(parts@[1]@ == left@);
        assert(parts@[2]@ == right@);
        assert(parts_view(parts@) =~= node_parts(left@, right@));
    }
    digest
}

/// Computes the sorted-pair combination of two digests.
pub fn hash_sorted_pair(a: &[u8; 32], b: &[u8; 32]) -> (digest: [u8; 32])
    ensures
        digest@ == node_hash(a@, b@),
{
    if hash_le(a, b) {
        hash_intermediate(a, b)
    } else {
        hash_intermediate(b, a)
    }
}

/// Computes the SHA-256 digest of one byte string.
pub fn hash_bytes(val: &[u8]) -> (digest: [u8; 32])
    ensures
        digest@ == sha256(seq![val@]),
{
    hasher_digest(val)
}

/// Computes the commitment to a member identity, `H(0x00 || H(identity))`.
pub fn hash_identity(identity: &[u8; 32]) -> (digest: [u8; 32])
    ensures
        digest@ == leaf_hash(identity@),
{
    let inner = hash_bytes(identity.as_slice());
    hash_leaf(inner.as_slice())
}

} // verus!
