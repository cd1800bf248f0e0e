//! Fixed-width digests.

use vstd::prelude::*;

verus! {

/// A 256-bit cryptographic digest, held as eight 32-bit words.
///
/// The hash function that produces digests is not part of this crate; a digest
/// is carried and compared, never computed here.
#[derive(Clone, Copy, Debug, PartialEq, Eq)]
pub struct Digest {
    /// The words of the digest, the first one first.
    pub words: [u32; 8],
}

impl Digest {
    /// The digest made of the given words.
    pub fn new(words: [u32; 8]) -> (d: Digest)
        ensures
            d.words == words,
    {
        Digest { words }
    }

    /// The digest whose words are all zero.
    pub open spec fn spec_zero() -> Digest {
        Digest { words: [0u32, 0u32, 0u32, 0u32, 0u32, 0u32, 0u32, 0u32] }
    }

    /// The digest whose words are all zero.
    #[verifier::when_used_as_spec(spec_zero)]
    pub fn zero() -> (d: Digest)
        ensures
            d == Digest::spec_zero(),
            forall|i: int| 0 <= i < 8 ==> d.words@[i] == 0,
    {
        Digest { words: [0u32, 0u32, 0u32, 0u32, 0u32, 0u32, 0u32, 0u32] }
    }

    /// The words of the digest.
    pub fn as_words(&self) -> (w: &[u32; 8])
        ensures
            *w == self.words,
    {
        &self.words
    }
}

} // verus!
