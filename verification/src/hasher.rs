use crate::format::algorithm::HashAlgorithm;
use crate::primitives::hashes::{
    Blake3State,
    blake3_absorbed, blake3_finalize, blake3_hash, blake3_new, blake3_update, sha2_384_absorbed,
    sha2_384_digest, sha2_384_finalize, sha2_384_new, sha2_384_update, sha2_512_absorbed,
    sha2_512_digest, sha2_512_finalize, sha2_512_new, sha2_512_update, sha3_384_absorbed,
    sha3_384_digest, sha3_384_finalize, sha3_384_new, sha3_384_update, sha3_512_absorbed,
    sha3_512_digest, sha3_512_finalize, sha3_512_new, sha3_512_update,
};
use vstd::prelude::*;

verus! {

/// The digest of `input` under `algorithm`.
pub open spec fn spec_digest(algorithm: HashAlgorithm, input: Seq<u8>) -> Seq<u8> {
    match algorithm {
        HashAlgorithm::Blake3 => blake3_hash(input),
        HashAlgorithm::Sha2_384 => sha2_384_digest(input),
        HashAlgorithm::Sha2_512 => sha2_512_digest(input),
        HashAlgorithm::Sha3_384 => sha3_384_digest(input),
        HashAlgorithm::Sha3_512 => sha3_512_digest(input),
    }
}

enum State {
    Blake3(Blake3State),
    Sha2_384(sha2::Sha384),
    Sha2_512(sha2::Sha512),
    Sha3_384(sha3::Sha3_384),
    Sha3_512(sha3::Sha3_512),
}

/// A digest in progress. It takes its input in any number of pieces and
/// holds no more than the algorithm's own state, however long the input.
pub struct Hasher {
    state: State,
}

impl Hasher {
    /// The algorithm that this hasher runs.
    pub closed spec fn spec_algorithm(self) -> HashAlgorithm {
        match self.state {
            State::Blake3(_) => HashAlgorithm::Blake3,
            State::Sha2_384(_) => HashAlgorithm::Sha2_384,
            State::Sha2_512(_) => HashAlgorithm::Sha2_512,
            State::Sha3_384(_) => HashAlgorithm::Sha3_384,
            State::Sha3_512(_) => HashAlgorithm::Sha3_512,
        }
    }

    /// All the bytes taken in so far, in order. How they were cut into
    /// pieces leaves no trace.
    pub closed spec fn spec_input(self) -> Seq<u8> {
        match self.state {
            State::Blake3(state) => blake3_absorbed(state),
            State::Sha2_384(state) => sha2_384_absorbed(state),
            State::Sha2_512(state) => sha2_512_absorbed(state),
            State::Sha3_384(state) => sha3_384_absorbed(state),
            State::Sha3_512(state) => sha3_512_absorbed(state),
        }
    }

    /// A hasher of the given algorithm that has taken in nothing.
    pub fn new(algo: HashAlgorithm) -> (hasher: Self)
        ensures
            hasher.spec_algorithm() == algo,
            hasher.spec_input() == Seq::<u8>::empty(),
    {
        match algo {
            HashAlgorithm::Blake3 => Hasher { state: State::Blake3(blake3_new()) },
            HashAlgorithm::Sha2_384 => Hasher { state: State::Sha2_384(sha2_384_new()) },
            HashAlgorithm::Sha2_512 => Hasher { state: State::Sha2_512(sha2_512_new()) },
            HashAlgorithm::Sha3_384 => Hasher { state: State::Sha3_384(sha3_384_new()) },
            HashAlgorithm::Sha3_512 => Hasher { state: State::Sha3_512(sha3_512_new()) },
        }
    }

    pub fn algorithm(&self) -> (algorithm: HashAlgorithm)
        ensures
            algorithm == self.spec_algorithm(),
    {
        match &self.state {
            State::Blake3(_) => HashAlgorithm::Blake3,
            State::Sha2_384(_) => HashAlgorithm::Sha2_384,
            State::Sha2_512(_) => HashAlgorithm::Sha2_512,
            State::Sha3_384(_) => HashAlgorithm::Sha3_384,
            State::Sha3_512(_) => HashAlgorithm::Sha3_512,
        }
    }

    /// Takes in one more piece of the input.
    pub fn update(&mut self, data: &[u8])
        ensures
            final(self).spec_algorithm() == old(self).spec_algorithm(),
            final(self).spec_input() == old(self).spec_input() + data@,
    {
        match &mut self.state {
            State::Blake3(state) => blake3_update(state, data),
            State::Sha2_384(state) => sha2_384_update(state, data),
            State::Sha2_512(state) => sha2_512_update(state, data),
            State::Sha3_384(state) => sha3_384_update(state, data),
            State::Sha3_512(state) => sha3_512_update(state, data),
        }
    }

    /// Ends the digest and gives it out. The hasher is used up.
    pub fn finish(self) -> (digest: Vec<u8>)
        ensures
            digest@ == spec_digest(self.spec_algorithm(), self.spec_input()),
            digest@.len() == self.spec_algorithm().spec_hash_len(),
    {
        match self.state {
            State::Blake3(state) => blake3_finalize(state),
            State::Sha2_384(state) => sha2_384_finalize(state),
            State::Sha2_512(state) => sha2_512_finalize(state),
            State::Sha3_384(state) => sha3_384_finalize(state),
            State::Sha3_512(state) => sha3_512_finalize(state),
        }
    }
}

impl From<HashAlgorithm> for Hasher {
    fn from(algo: HashAlgorithm) -> (hasher: Self)
        ensures
            hasher.spec_algorithm() == algo,
            hasher.spec_input() == Seq::<u8>::empty(),
    {
        Hasher::new(algo)
    }
}

impl vstd::std_specs::convert::FromSpecImpl<HashAlgorithm> for Hasher {
    open spec fn obeys_from_spec() -> bool {
        false
    }

    open spec fn from_spec(algo: HashAlgorithm) -> Hasher {
        arbitrary()
    }
}

/// The digest of `data` under `algo`, taken in one piece.
pub fn digest(algo: HashAlgorithm, data: &[u8]) -> (digest: Vec<u8>)
    ensures
        digest@ == spec_digest(algo, data@),
        digest@.len() == algo.spec_hash_len(),
{
    let mut hasher = Hasher::new(algo);
    hasher.update(data);
    assert(Seq::<u8>::empty() + data@ =~= data@);
    hasher.finish()
}

/// All the pieces of an input laid end to end.
pub open spec fn concat_chunks(chunks: Seq<Vec<u8>>) -> Seq<u8>
    decreases chunks.len(),
{
    if chunks.len() == 0 {
        Seq::empty()
    } else {
        concat_chunks(chunks.drop_last()) + chunks.last()@
    }
}

/// The digest of an input that comes in pieces. It is the digest of the
/// pieces laid end to end: where the input was cut makes no difference.
pub fn digest_chunks(algo: HashAlgorithm, chunks: &[Vec<u8>]) -> (digest: Vec<u8>)
    ensures
        digest@ == spec_digest(algo, concat_chunks(chunks@)),
        digest@.len() == algo.spec_hash_len(),
{
    let mut hasher = Hasher::new(algo);
    let mut i: usize = 0;
    while i < chunks.len()
        invariant
            i <= chunks.len(),
            hasher.spec_algorithm() == algo,
            hasher.spec_input() == concat_chunks(chunks@.take(i as int)),
        decreases chunks.len() - i,
    {
        hasher.update(chunks[i].as_slice());
        proof {
            let next = chunks@.take(i + 1);
            assert(next.drop_last() =~= chunks@.take(i as int));
            assert(next.last() == chunks@[i as int]);
        }
        i += 1;
    }
    assert(chunks@.take(i as int) =~= chunks@);
    hasher.finish()
}

} // verus!
