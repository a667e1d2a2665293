//! Content digests: BLAKE3 over a byte stream, rendered as lowercase hex.

use vstd::prelude::*;
use vstd::slice::slice_subrange;

verus! {

/// Size of the pieces in which input is handed to the hasher.
pub const CHUNK_SIZE: usize = 8192;

/// Number of characters in a rendered digest.
pub const DIGEST_HEX_LEN: usize = 64;

/// `blake3::Hasher`, the incremental hash state, taken as it is.
#[verifier::external_type_specification]
#[verifier::external_body]
pub struct ExBlake3Hasher(blake3::Hasher);

/// The bytes a `blake3::Hasher` has been given so far, in order.
pub uninterp spec fn hasher_input(h: blake3::Hasher) -> Seq<u8>;

/// Whether a `blake3::Hasher` hashes from the start of its input, as one made
/// by `Hasher::new` does.
pub uninterp spec fn hasher_from_start(h: blake3::Hasher) -> bool;

/// The BLAKE3 hash of `input` in hexadecimal.
pub uninterp spec fn blake3_hex(input: Seq<u8>) -> Seq<char>;

/// A digit or one of the letters `a` to `f`.
pub open spec fn is_lower_hex_char(c: char) -> bool {
    ('0' <= c && c <= '9') || ('a' <= c && c <= 'f')
}

/// A rendered digest: 64 lowercase hexadecimal characters.
pub open spec fn is_digest_text(s: Seq<char>) -> bool {
    &&& s.len() == DIGEST_HEX_LEN
    &&& forall|i: int| 0 <= i < s.len() ==> is_lower_hex_char(#[trigger] s[i])
}

/// `blake3::Hasher::new`: a hasher for the regular hash function that has seen
/// no input yet.
#[verifier::external_body]
fn hasher_new() -> (h: blake3::Hasher)
    ensures
        hasher_input(h) == Seq::<u8>::empty(),
        hasher_from_start(h),
{
    blake3::Hasher::new()
}

/// `blake3::Hasher::update`: appends `chunk` to the hasher's input. Feeding an
/// input in pieces is the same as feeding it whole. For a hasher that hashes
/// from the start of its input the call takes any chunk and does not panic.
#[verifier::external_body]
fn hasher_update(h: &mut blake3::Hasher, chunk: &[u8])
    requires
        hasher_from_start(*old(h)),
    ensures
        hasher_input(*final(h)) == hasher_input(*old(h)) + chunk@,
        hasher_from_start(*final(h)),
    no_unwind
{
    h.update(chunk);
}

/// `blake3::Hasher::finalize` followed by `Hash::to_hex`: the hash of all the
/// input given so far, as 64 characters out of `0123456789abcdef`. The hasher
/// itself is left as it was. `finalize` is only for a hasher that hashes from
/// the start of its input.
#[verifier::external_body]
fn hasher_finalize_hex(h: &blake3::Hasher) -> (digest: String)
    requires
        hasher_from_start(*h),
    ensures
        digest@ == blake3_hex(hasher_input(*h)),
        is_digest_text(digest@),
{
    h.finalize().to_hex().to_string()
}

/// An incremental content hasher.
pub struct ContentHasher {
    inner: blake3::Hasher,
}

impl ContentHasher {
    /// The bytes absorbed so far.
    pub closed spec fn absorbed(&self) -> Seq<u8> {
        hasher_input(self.inner)
    }

    #[verifier::type_invariant]
    spec fn inv(&self) -> bool {
        hasher_from_start(self.inner)
    }

    /// A hasher that has absorbed nothing.
    pub fn new() -> (h: Self)
        ensures
            h.absorbed() == Seq::<u8>::empty(),
    {
        ContentHasher { inner: hasher_new() }
    }

    /// Absorbs `chunk` after everything absorbed before.
    pub fn update(&mut self, chunk: &[u8])
        ensures
            final(self).absorbed() == old(self).absorbed() + chunk@,
    {
        proof {
            use_type_invariant(&*self);
        }
        hasher_update(&mut self.inner, chunk);
    }

    /// The digest of everything absorbed so far.
    pub fn finalize(&self) -> (digest: String)
        ensures
            digest@ == blake3_hex(self.absorbed()),
            is_digest_text(digest@),
    {
        proof {
            use_type_invariant(self);
        }
        hasher_finalize_hex(&self.inner)
    }

    /// Takes what one read of a source returned. A non-empty read is absorbed
    /// and no digest is given yet; an empty read marks the end of the source
    /// and gives the digest of everything absorbed. No digest is ever given
    /// for a source that has not been read to its end.
    pub fn feed(&mut self, read: &[u8]) -> (digest: Option<String>)
        ensures
            read@.len() > 0 ==> digest is None && final(self).absorbed() == old(self).absorbed()
                + read@,
            read@.len() == 0 ==> final(self).absorbed() == old(self).absorbed() && digest
                is Some && digest->0@ == digest_of(old(self).absorbed()),
            digest is Some ==> is_digest_text(digest->0@),
    {
        if read.len() == 0 {
            Some(self.finalize())
        } else {
            self.update(read);
            None
        }
    }
}

/// The digest of a file's content: what hashing `content` yields.
pub open spec fn digest_of(content: Seq<u8>) -> Seq<char> {
    blake3_hex(content)
}

/// Hashes `data` in pieces of at most `CHUNK_SIZE` bytes and renders the digest
/// as lowercase hex.
pub fn compute_blake3(data: &[u8]) -> (digest: String)
    ensures
        digest@ == digest_of(data@),
        is_digest_text(digest@),
{
    let mut hasher = ContentHasher::new();
    let mut offset: usize = 0;
    while offset < data.len()
        invariant
            offset <= data.len(),
            hasher.absorbed() == data@.subrange(0, offset as int),
        decreases data.len() - offset,
    {
        let end: usize = if data.len() - offset > CHUNK_SIZE {
            offset + CHUNK_SIZE
        } else {
            data.len()
        };
        let chunk = slice_subrange(data, offset, end);
        hasher.update(chunk);
        offset = end;
    }
    assert(data@.subrange(0, offset as int) =~= data@);
    hasher.finalize()
}

/// The content digest of a file whose bytes are `data`.
pub fn hash_file(data: &[u8]) -> (digest: String)
    ensures
        digest@ == digest_of(data@),
        is_digest_text(digest@),
{
    compute_blake3(data)
}

/// Hashing is a function of the bytes alone: equal content has equal digests,
/// however often and in whatever pieces it is hashed.
pub proof fn lemma_same_bytes_same_digest(first: Seq<u8>, second: Seq<u8>)
    requires
        first =~= second,
    ensures
        digest_of(first) == digest_of(second),
{
}

} // verus!
