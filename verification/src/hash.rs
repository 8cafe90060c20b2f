use vstd::prelude::*;

verus! {

/// The double-SHA-256 digest of a byte string, left unspecified: the digest is
/// computed by the `bitcoin` crate, and nothing in this crate states its value,
/// only that it is a function of the input bytes alone.
pub uninterp spec fn sha256d_of(data: Seq<u8>) -> Seq<u8>;

/// Relies on `bitcoin::hashes::sha256d::Hash::hash`: the double-SHA-256
/// digest of the input bytes, 32 bytes long, a function of the input alone.
#[verifier::external_body]
pub(crate) fn sha256d(data: &Vec<u8>) -> (r: Vec<u8>)
    ensures
        r@ == sha256d_of(data@),
        r@.len() == 32,
{
    let digest = <bitcoin::hashes::sha256d::Hash as bitcoin::hashes::Hash>::hash(data.as_slice());
    <bitcoin::hashes::sha256d::Hash as bitcoin::hashes::Hash>::into_inner(digest).to_vec()
}

/// Compares two byte vectors for equality.
pub fn bytes_eq(a: &Vec<u8>, b: &Vec<u8>) -> (r: bool)
    ensures
        r == (a@ == b@),
{
    if a.len() != b.len() {
        assert(a@ != b@);
        return false;
    }
    let n = a.len();
    let mut i: usize = 0;
    while i < n
        invariant
            n == a@.len(),
            n == b@.len(),
            i <= n,
            forall|k: int| 0 <= k < i ==> a@[k] == b@[k],
        decreases n - i,
    {
        if a[i] != b[i] {
            return false;
        }
        i += 1;
    }
    assert(a@ =~= b@);
    true
}

/// Copies a byte vector.
pub fn clone_bytes(v: &Vec<u8>) -> (r: Vec<u8>)
    ensures
        r@ == v@,
{
    let mut r: Vec<u8> = Vec::new();
    let n = v.len();
    let mut i: usize = 0;
    while i < n
        invariant
            n == v@.len(),
            i <= n,
            r@ == v@.take(i as int),
        decreases n - i,
    {
        r.push(v[i]);
        assert(r@ =~= v@.take(i + 1));
        i += 1;
    }
    assert(r@ =~= v@);
    r
}

/// A 32-byte hash value: a block identifier or a transaction id.
#[derive(Debug, PartialEq, Eq)]
pub struct Hash32 {
    pub bytes: Vec<u8>,
}

impl View for Hash32 {
    type V = Seq<u8>;

    open spec fn view(&self) -> Seq<u8> {
        self.bytes@
    }
}

impl Hash32 {
    /// A hash value holds exactly 32 bytes.
    pub open spec fn wf(&self) -> bool {
        self@.len() == 32
    }

    pub fn eq_hash(&self, other: &Hash32) -> (r: bool)
        ensures
            r == (self@ == other@),
    {
        bytes_eq(&self.bytes, &other.bytes)
    }

    pub fn to_vec(&self) -> (r: Vec<u8>)
        ensures
            r@ == self@,
    {
        clone_bytes(&self.bytes)
    }
}

impl Clone for Hash32 {
    fn clone(&self) -> (r: Hash32)
        ensures
            r@ == self@,
    {
        Hash32 { bytes: clone_bytes(&self.bytes) }
    }
}

/// The all-zero 32-byte string, used as the parent hash of the anchor block.
pub open spec fn zero32() -> Seq<u8> {
    Seq::new(32, |i: int| 0u8)
}

/// Builds the all-zero hash value.
pub fn zero_hash() -> (r: Hash32)
    ensures
        r@ == zero32(),
        r.wf(),
{
    let mut bytes: Vec<u8> = Vec::new();
    let mut i: usize = 0;
    while i < 32
        invariant
            i <= 32,
            bytes@ == zero32().take(i as int),
        decreases 32 - i,
    {
        bytes.push(0u8);
        assert(bytes@ =~= zero32().take(i + 1));
        i += 1;
    }
    assert(bytes@ =~= zero32());
    Hash32 { bytes }
}

} // verus!
