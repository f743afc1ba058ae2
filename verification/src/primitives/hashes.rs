use digest::Digest;
use vstd::prelude::*;

verus! {

/// The state of a BLAKE3 digest in progress, as the `blake3` crate keeps it.
/// Nothing of it is visible to proofs but what it has taken in.
#[verifier::external_body]
pub struct Blake3State {
    inner: blake3::Hasher,
}

/// `sha2::Sha384`, the state of a digest in progress, carried through as an opaque
/// value.
#[verifier::external_type_specification]
#[verifier::external_body]
pub struct ExSha384(sha2::Sha384);

/// `sha2::Sha512`, the state of a digest in progress, carried through as an opaque
/// value.
#[verifier::external_type_specification]
#[verifier::external_body]
pub struct ExSha512(sha2::Sha512);

/// `sha3::Sha3_384`, the state of a digest in progress, carried through as an opaque
/// value.
#[verifier::external_type_specification]
#[verifier::external_body]
pub struct ExSha3_384(sha3::Sha3_384);

/// `sha3::Sha3_512`, the state of a digest in progress, carried through as an opaque
/// value.
#[verifier::external_type_specification]
#[verifier::external_body]
pub struct ExSha3_512(sha3::Sha3_512);

/// The bytes that the `blake3` state has taken in so far, in order.
pub uninterp spec fn blake3_absorbed(state: Blake3State) -> Seq<u8>;

/// The bytes that a `sha2::Sha384` has taken in so far, in order.
pub uninterp spec fn sha2_384_absorbed(state: sha2::Sha384) -> Seq<u8>;

/// The bytes that a `sha2::Sha512` has taken in so far, in order.
pub uninterp spec fn sha2_512_absorbed(state: sha2::Sha512) -> Seq<u8>;

/// The bytes that a `sha3::Sha3_384` has taken in so far, in order.
pub uninterp spec fn sha3_384_absorbed(state: sha3::Sha3_384) -> Seq<u8>;

/// The bytes that a `sha3::Sha3_512` has taken in so far, in order.
pub uninterp spec fn sha3_512_absorbed(state: sha3::Sha3_512) -> Seq<u8>;

/// The BLAKE3 hash of an input, 32 bytes: what `blake3::hash` returns, and
/// what the `blake3` state gives once it has taken the input in, in however
/// many pieces.
pub uninterp spec fn blake3_hash(input: Seq<u8>) -> Seq<u8>;

/// The SHA-384 digest of an input, 48 bytes.
pub uninterp spec fn sha2_384_digest(input: Seq<u8>) -> Seq<u8>;

/// The SHA-512 digest of an input, 64 bytes.
pub uninterp spec fn sha2_512_digest(input: Seq<u8>) -> Seq<u8>;

/// The SHA3-384 digest of an input, 48 bytes.
pub uninterp spec fn sha3_384_digest(input: Seq<u8>) -> Seq<u8>;

/// The SHA3-512 digest of an input, 64 bytes.
pub uninterp spec fn sha3_512_digest(input: Seq<u8>) -> Seq<u8>;

/// `blake3::hash`: the hash of the input, as 32 bytes.
#[verifier::external_body]
pub(crate) fn blake3_hash_bytes(input: &[u8]) -> (hash: [u8; 32])
    ensures
        hash@ == blake3_hash(input@),
{
    *blake3::hash(input).as_bytes()
}

/// The `new` of the `blake3` state: a state that has taken in nothing.
#[verifier::external_body]
pub(crate) fn blake3_new() -> (state: Blake3State)
    ensures
        blake3_absorbed(state) == Seq::<u8>::empty(),
{
    Blake3State { inner: blake3::Hasher::new() }
}

/// The `update` of the `blake3` state: it takes in `data` after what it had.
#[verifier::external_body]
pub(crate) fn blake3_update(state: &mut Blake3State, data: &[u8])
    ensures
        blake3_absorbed(*final(state)) == blake3_absorbed(*old(state)) + data@,
{
    blake3::Hasher::update(&mut state.inner, data);
}

/// The `finalize` of the `blake3` state: the hash of all that it has taken
/// in, which the crate documents to be what `blake3::hash` gives for the same
/// bytes in one piece.
#[verifier::external_body]
pub(crate) fn blake3_finalize(state: Blake3State) -> (hash: Vec<u8>)
    ensures
        hash@ == blake3_hash(blake3_absorbed(state)),
        hash@.len() == 32,
{
    blake3::Hasher::finalize(&state.inner).as_bytes().to_vec()
}

/// `Digest::new` of `sha2::Sha384`: a state that has taken in nothing.
#[verifier::external_body]
pub(crate) fn sha2_384_new() -> (state: sha2::Sha384)
    ensures
        sha2_384_absorbed(state) == Seq::<u8>::empty(),
{
    sha2::Sha384::new()
}

/// `Digest::update` of `sha2::Sha384`: the state takes in `data` after what
/// it had.
#[verifier::external_body]
pub(crate) fn sha2_384_update(state: &mut sha2::Sha384, data: &[u8])
    ensures
        sha2_384_absorbed(*final(state)) == sha2_384_absorbed(*old(state)) + data@,
{
    state.update(data);
}

/// `Digest::finalize` of `sha2::Sha384`: the digest of all that the state has
/// taken in.
#[verifier::external_body]
pub(crate) fn sha2_384_finalize(state: sha2::Sha384) -> (hash: Vec<u8>)
    ensures
        hash@ == sha2_384_digest(sha2_384_absorbed(state)),
        hash@.len() == 48,
{
    state.finalize().to_vec()
}

/// `Digest::new` of `sha2::Sha512`: a state that has taken in nothing.
#[verifier::external_body]
pub(crate) fn sha2_512_new() -> (state: sha2::Sha512)
    ensures
        sha2_512_absorbed(state) == Seq::<u8>::empty(),
{
    sha2::Sha512::new()
}

/// `Digest::update` of `sha2::Sha512`: the state takes in `data` after what
/// it had.
#[verifier::external_body]
pub(crate) fn sha2_512_update(state: &mut sha2::Sha512, data: &[u8])
    ensures
        sha2_512_absorbed(*final(state)) == sha2_512_absorbed(*old(state)) + data@,
{
    state.update(data);
}

/// `Digest::finalize` of `sha2::Sha512`: the digest of all that the state has
/// taken in.
#[verifier::external_body]
pub(crate) fn sha2_512_finalize(state: sha2::Sha512) -> (hash: Vec<u8>)
    ensures
        hash@ == sha2_512_digest(sha2_512_absorbed(state)),
        hash@.len() == 64,
{
    state.finalize().to_vec()
}

/// `Digest::new` of `sha3::Sha3_384`: a state that has taken in nothing.
#[verifier::external_body]
pub(crate) fn sha3_384_new() -> (state: sha3::Sha3_384)
    ensures
        sha3_384_absorbed(state) == Seq::<u8>::empty(),
{
    sha3::Sha3_384::new()
}

/// `Digest::update` of `sha3::Sha3_384`: the state takes in `data` after what
/// it had.
#[verifier::external_body]
pub(crate) fn sha3_384_update(state: &mut sha3::Sha3_384, data: &[u8])
    ensures
        sha3_384_absorbed(*final(state)) == sha3_384_absorbed(*old(state)) + data@,
{
    state.update(data);
}

/// `Digest::finalize` of `sha3::Sha3_384`: the digest of all that the state
/// has taken in.
#[verifier::external_body]
pub(crate) fn sha3_384_finalize(state: sha3::Sha3_384) -> (hash: Vec<u8>)
    ensures
        hash@ == sha3_384_digest(sha3_384_absorbed(state)),
        hash@.len() == 48,
{
    state.finalize().to_vec()
}

/// `Digest::new` of `sha3::Sha3_512`: a state that has taken in nothing.
#[verifier::external_body]
pub(crate) fn sha3_512_new() -> (state: sha3::Sha3_512)
    ensures
        sha3_512_absorbed(state) == Seq::<u8>::empty(),
{
    sha3::Sha3_512::new()
}

/// `Digest::update` of `sha3::Sha3_512`: the state takes in `data` after what
/// it had.
#[verifier::external_body]
pub(crate) fn sha3_512_update(state: &mut sha3::Sha3_512, data: &[u8])
    ensures
        sha3_512_absorbed(*final(state)) == sha3_512_absorbed(*old(state)) + data@,
{
    state.update(data);
}

/// `Digest::finalize` of `sha3::Sha3_512`: the digest of all that the state
/// has taken in.
#[verifier::external_body]
pub(crate) fn sha3_512_finalize(state: sha3::Sha3_512) -> (hash: Vec<u8>)
    ensures
        hash@ == sha3_512_digest(sha3_512_absorbed(state)),
        hash@.len() == 64,
{
    state.finalize().to_vec()
}

} // verus!
