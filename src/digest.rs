use vstd::prelude::*;

use vstd::bytes::{spec_u128_to_le_bytes, u128_to_le_bytes};

use crate::types::H256;

verus! {

/// The 32-byte BLAKE2b digest of a byte string.
pub uninterp spec fn blake2b_256(bytes: Seq<u8>) -> Seq<u8>;

/// Relies on blake2b_simd's `Params::hash_length(32)` and `Params::hash`:
/// a 32-byte BLAKE2b digest, determined by the input bytes alone.
#[verifier::external_body]
fn blake2b_hash(bytes: &[u8]) -> (r: H256)
    ensures
        r@ == blake2b_256(bytes@),
{
    let hash = blake2b_simd::Params::new().hash_length(32).hash(bytes);
    let mut out = [0u8; 32];
    out.copy_from_slice(hash.as_bytes());
    H256(out)
}

/// An incremental hashing state: the bytes fed so far, digested at the end.
pub struct HashState {
    input: Vec<u8>,
}

impl View for HashState {
    type V = Seq<u8>;

    closed spec fn view(&self) -> Seq<u8> {
        self.input@
    }
}

impl HashState {
    /// A state that has been fed nothing.
    pub fn new() -> (r: HashState)
        ensures
            r@ == Seq::<u8>::empty(),
    {
        HashState { input: Vec::new() }
    }

    /// Feeds `bytes` to the state.
    pub fn update(&mut self, bytes: &[u8])
        ensures
            final(self)@ == old(self)@ + bytes@,
    {
        self.input.extend_from_slice(bytes);
    }

    /// The digest of everything fed to the state.
    pub fn fin(self) -> (r: H256)
        ensures
            r@ == blake2b_256(self@),
    {
        blake2b_hash(self.input.as_slice())
    }
}

/// Values that feed a canonical byte encoding of themselves to a hash state.
pub trait MakeDigest {
    /// The bytes that are fed.
    spec fn digest_input(&self) -> Seq<u8>;

    fn make_digest(&self, state: &mut HashState)
        ensures
            final(state)@ == old(state)@ + self.digest_input(),
    ;
}

/// Values named by the digest of their encoding.
pub trait Digest {
    /// The bytes that are hashed.
    spec fn digest_input(&self) -> Seq<u8>;

    fn digest(&self) -> (r: H256)
        ensures
            r@ == blake2b_256(Digest::digest_input(self)),
    ;
}

impl MakeDigest for H256 {
    open spec fn digest_input(&self) -> Seq<u8> {
        self@
    }

    fn make_digest(&self, state: &mut HashState) {
        state.update(self.as_bytes());
    }
}

impl MakeDigest for Vec<u8> {
    open spec fn digest_input(&self) -> Seq<u8> {
        self@
    }

    fn make_digest(&self, state: &mut HashState) {
        state.update(self.as_slice());
    }
}

impl MakeDigest for u128 {
    open spec fn digest_input(&self) -> Seq<u8> {
        spec_u128_to_le_bytes(*self)
    }

    fn make_digest(&self, state: &mut HashState) {
        let bytes = u128_to_le_bytes(*self);
        state.update(bytes.as_slice());
    }
}

impl Digest for H256 {
    open spec fn digest_input(&self) -> Seq<u8> {
        self@
    }

    fn digest(&self) -> (r: H256) {
        let mut state = HashState::new();
        self.make_digest(&mut state);
        assert(state@ =~= self@);
        state.fin()
    }
}

impl Digest for Vec<u8> {
    open spec fn digest_input(&self) -> Seq<u8> {
        self@
    }

    fn digest(&self) -> (r: H256) {
        let mut state = HashState::new();
        self.make_digest(&mut state);
        assert(state@ =~= self@);
        state.fin()
    }
}

impl Digest for u128 {
    open spec fn digest_input(&self) -> Seq<u8> {
        spec_u128_to_le_bytes(*self)
    }

    fn digest(&self) -> (r: H256) {
        let mut state = HashState::new();
        self.make_digest(&mut state);
        assert(state@ =~= spec_u128_to_le_bytes(*self));
        state.fin()
    }
}

/// The id of a contract: the digest of its bytecode.
pub open spec fn contract_id(code: Seq<u8>) -> Seq<u8> {
    blake2b_256(code)
}

} // verus!
