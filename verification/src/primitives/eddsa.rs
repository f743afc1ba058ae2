use vstd::prelude::*;

verus! {

/// `ed25519_dalek::PublicKey`, carried through as an opaque value.
#[verifier::external_type_specification]
#[verifier::external_body]
pub struct ExPublicKey(ed25519_dalek::PublicKey);

/// `ed25519_dalek::SecretKey`, carried through as an opaque value. It
/// overwrites its bytes with zeroes when it is dropped.
#[verifier::external_type_specification]
#[verifier::external_body]
pub struct ExSecretKey(ed25519_dalek::SecretKey);

/// `ed25519_dalek::SignatureError`, carried through as an opaque value.
#[verifier::external_type_specification]
#[verifier::external_body]
pub struct ExSignatureError(ed25519_dalek::SignatureError);

/// The 32 bytes that encode an `ed25519_dalek::PublicKey`.
pub uninterp spec fn ed25519_public_key_bytes(key: ed25519_dalek::PublicKey) -> Seq<u8>;

/// The 32 bytes that an `ed25519_dalek::SecretKey` holds.
pub uninterp spec fn ed25519_secret_key_bytes(key: ed25519_dalek::SecretKey) -> Seq<u8>;

/// The encoding of the public key that belongs to a secret key: what
/// `PublicKey::from(&SecretKey)` derives from the secret key's 32 bytes.
pub uninterp spec fn ed25519_public_of(secret: Seq<u8>) -> Seq<u8>;

/// Whether 32 bytes decode to a point of the curve, as
/// `ed25519_dalek::PublicKey::from_bytes` finds by decompressing them.
pub uninterp spec fn ed25519_point_decodes(bytes: Seq<u8>) -> bool;

/// The signature that `ed25519_dalek::ExpandedSecretKey::sign` computes for a
/// message from the bytes of the secret and of the public key. Ed25519
/// signing draws no randomness.
pub uninterp spec fn ed25519_signature_of(secret: Seq<u8>, public: Seq<u8>, message: Seq<u8>) -> Seq<u8>;

/// Whether `ed25519_dalek::PublicKey::verify` accepts a well-formed signature
/// for a message under the key with the given bytes.
pub uninterp spec fn ed25519_verifies(public: Seq<u8>, message: Seq<u8>, signature: Seq<u8>) -> bool;

/// The encodings that `ed25519_dalek::Signature::from_bytes` takes: 64 bytes
/// of which the last has its three highest bits clear.
pub open spec fn ed25519_signature_well_formed(signature: Seq<u8>) -> bool {
    signature.len() == 64 && signature[63] & 0xe0 == 0
}

/// `ed25519_dalek::Keypair::generate` on `rand::thread_rng()`: a secret key
/// drawn at random, and the public key that `PublicKey::from` derives from
/// it. Nothing is claimed of the secret key's value.
#[verifier::external_body]
pub(crate) fn ed25519_generate() -> (pair: (ed25519_dalek::PublicKey, ed25519_dalek::SecretKey))
    ensures
        ed25519_public_key_bytes(pair.0) == ed25519_public_of(ed25519_secret_key_bytes(pair.1)),
{
    let pair = ed25519_dalek::Keypair::generate(&mut rand::thread_rng());
    (pair.public, pair.secret)
}

/// `PublicKey::from(&SecretKey)`: the public key that belongs to the secret
/// key.
#[verifier::external_body]
pub(crate) fn ed25519_public_key_of_secret(secret: &ed25519_dalek::SecretKey) -> (public: ed25519_dalek::PublicKey)
    ensures
        ed25519_public_key_bytes(public) == ed25519_public_of(ed25519_secret_key_bytes(*secret)),
{
    ed25519_dalek::PublicKey::from(secret)
}

/// `ed25519_dalek::PublicKey::to_bytes`: the key's encoding.
#[verifier::external_body]
pub(crate) fn ed25519_public_key_to_bytes(key: &ed25519_dalek::PublicKey) -> (bytes: [u8; 32])
    ensures
        bytes@ == ed25519_public_key_bytes(*key),
{
    key.to_bytes()
}

/// `ed25519_dalek::SecretKey::to_bytes`: the bytes of the key.
#[verifier::external_body]
pub(crate) fn ed25519_secret_key_to_bytes(key: &ed25519_dalek::SecretKey) -> (bytes: [u8; 32])
    ensures
        bytes@ == ed25519_secret_key_bytes(*key),
{
    key.to_bytes()
}

/// `ed25519_dalek::PublicKey::from_bytes`: succeeds on exactly the 32-byte
/// inputs that decode to a point, and the key then encodes to the input.
#[verifier::external_body]
pub(crate) fn ed25519_public_key_from_bytes(bytes: &[u8]) -> (key: Result<ed25519_dalek::PublicKey, ed25519_dalek::SignatureError>)
    ensures
        key is Ok <==> (bytes@.len() == 32 && ed25519_point_decodes(bytes@)),
        key matches Ok(public) ==> ed25519_public_key_bytes(public) == bytes@,
{
    ed25519_dalek::PublicKey::from_bytes(bytes)
}

/// `ed25519_dalek::SecretKey::from_bytes`: succeeds on exactly the 32-byte
/// inputs, and the key then holds the input.
#[verifier::external_body]
pub(crate) fn ed25519_secret_key_from_bytes(bytes: &[u8]) -> (key: Result<ed25519_dalek::SecretKey, ed25519_dalek::SignatureError>)
    ensures
        key is Ok <==> bytes@.len() == 32,
        key matches Ok(secret) ==> ed25519_secret_key_bytes(secret) == bytes@,
{
    ed25519_dalek::SecretKey::from_bytes(bytes)
}

/// `ed25519_dalek::ExpandedSecretKey::sign` on the expansion of `secret`,
/// which is what signing with an `ed25519_dalek::Keypair` does: the named
/// signature, in an encoding that `Signature::from_bytes` takes. Where the
/// public key is the one that belongs to the secret key, the signature is
/// one that `verify` accepts for the message, as the crate documents of a
/// keypair's own signatures.
#[verifier::external_body]
pub(crate) fn ed25519_sign(
    secret: &ed25519_dalek::SecretKey,
    public: &ed25519_dalek::PublicKey,
    message: &[u8],
) -> (signature: Vec<u8>)
    ensures
        signature@ == ed25519_signature_of(
            ed25519_secret_key_bytes(*secret),
            ed25519_public_key_bytes(*public),
            message@,
        ),
        ed25519_signature_well_formed(signature@),
        (ed25519_public_key_bytes(*public) == ed25519_public_of(ed25519_secret_key_bytes(*secret)))
            ==> ed25519_verifies(ed25519_public_key_bytes(*public), message@, signature@),
{
    ed25519_dalek::ExpandedSecretKey::from(secret).sign(message, public).to_bytes().to_vec()
}

/// `ed25519_dalek::Signature::from_bytes`, then `Verifier::verify` on the
/// public key. An encoding that `from_bytes` refuses gives its error; any
/// other gives whether the signature matches.
#[verifier::external_body]
pub(crate) fn ed25519_verify(
    public: &ed25519_dalek::PublicKey,
    message: &[u8],
    signature: &[u8],
) -> (valid: Result<bool, ed25519_dalek::SignatureError>)
    ensures
        valid is Ok <==> ed25519_signature_well_formed(signature@),
        valid matches Ok(accepted) ==> accepted == ed25519_verifies(
            ed25519_public_key_bytes(*public),
            message@,
            signature@,
        ),
{
    let parsed = ed25519_dalek::Signature::from_bytes(signature)?;
    Ok(ed25519_dalek::Verifier::verify(public, message, &parsed).is_ok())
}

/// The text of an `ed25519_dalek::SignatureError`, as its `Display` gives it.
#[verifier::external_body]
pub(crate) fn ed25519_error_text(error: &ed25519_dalek::SignatureError) -> (text: String) {
    error.to_string()
}

} // verus!
