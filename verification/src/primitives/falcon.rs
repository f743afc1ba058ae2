use vstd::prelude::*;

verus! {

/// `falcon512::PublicKey` of `pqcrypto`, carried through as an opaque value.
#[verifier::external_type_specification]
#[verifier::external_body]
pub struct ExFalcon512PublicKey(pqcrypto::sign::falcon512::PublicKey);

/// `falcon512::SecretKey` of `pqcrypto`, carried through as an opaque value.
#[verifier::external_type_specification]
#[verifier::external_body]
pub struct ExFalcon512SecretKey(pqcrypto::sign::falcon512::SecretKey);

/// `falcon1024::PublicKey` of `pqcrypto`, carried through as an opaque value.
#[verifier::external_type_specification]
#[verifier::external_body]
pub struct ExFalcon1024PublicKey(pqcrypto::sign::falcon1024::PublicKey);

/// `falcon1024::SecretKey` of `pqcrypto`, carried through as an opaque value.
#[verifier::external_type_specification]
#[verifier::external_body]
pub struct ExFalcon1024SecretKey(pqcrypto::sign::falcon1024::SecretKey);

/// The 897 bytes that a `falcon512::PublicKey` holds.
pub uninterp spec fn falcon512_public_key_bytes(key: pqcrypto::sign::falcon512::PublicKey) -> Seq<u8>;

/// The 1281 bytes that a `falcon512::SecretKey` holds.
pub uninterp spec fn falcon512_secret_key_bytes(key: pqcrypto::sign::falcon512::SecretKey) -> Seq<u8>;

/// Whether the bytes are a secret key as `falcon512::keypair` makes them.
/// On such a key `falcon512::detached_sign` returns; on other bytes of the
/// same length it may run forever.
pub uninterp spec fn falcon512_signing_key(secret: Seq<u8>) -> bool;

/// The bytes of the public key that `falcon512::keypair` makes together with
/// a secret key: key generation computes it from the secret key.
pub uninterp spec fn falcon512_public_of(secret: Seq<u8>) -> Seq<u8>;

/// Whether `falcon512::verify_detached_signature` accepts a signature of at
/// most 752 bytes for a message under the key with the given bytes.
pub uninterp spec fn falcon512_verifies(public: Seq<u8>, message: Seq<u8>, signature: Seq<u8>) -> bool;

/// The 1793 bytes that a `falcon1024::PublicKey` holds.
pub uninterp spec fn falcon1024_public_key_bytes(key: pqcrypto::sign::falcon1024::PublicKey) -> Seq<u8>;

/// The 2305 bytes that a `falcon1024::SecretKey` holds.
pub uninterp spec fn falcon1024_secret_key_bytes(key: pqcrypto::sign::falcon1024::SecretKey) -> Seq<u8>;

/// Whether the bytes are a secret key as `falcon1024::keypair` makes them.
/// On such a key `falcon1024::detached_sign` returns; on other bytes of the
/// same length it may run forever.
pub uninterp spec fn falcon1024_signing_key(secret: Seq<u8>) -> bool;

/// The bytes of the public key that `falcon1024::keypair` makes together with
/// a secret key: key generation computes it from the secret key.
pub uninterp spec fn falcon1024_public_of(secret: Seq<u8>) -> Seq<u8>;

/// Whether `falcon1024::verify_detached_signature` accepts a signature of at
/// most 1462 bytes for a message under the key with the given bytes.
pub uninterp spec fn falcon1024_verifies(public: Seq<u8>, message: Seq<u8>, signature: Seq<u8>) -> bool;

/// `falcon512::keypair`: a secret key drawn at random, one that the signer
/// can use, and the public key that is made together with it. Nothing is
/// claimed of the secret key's value.
#[verifier::external_body]
pub(crate) fn falcon512_generate() -> (pair: (pqcrypto::sign::falcon512::PublicKey, pqcrypto::sign::falcon512::SecretKey))
    ensures
        falcon512_signing_key(falcon512_secret_key_bytes(pair.1)),
        falcon512_public_key_bytes(pair.0) == falcon512_public_of(falcon512_secret_key_bytes(pair.1)),
{
    pqcrypto::sign::falcon512::keypair()
}

/// `as_bytes` of a `falcon512::PublicKey`: the bytes of the key, 897 of them.
#[verifier::external_body]
pub(crate) fn falcon512_public_key_to_bytes(key: &pqcrypto::sign::falcon512::PublicKey) -> (bytes: Vec<u8>)
    ensures
        bytes@ == falcon512_public_key_bytes(*key),
        bytes@.len() == 897,
{
    pqcrypto::traits::sign::PublicKey::as_bytes(key).to_vec()
}

/// `as_bytes` of a `falcon512::SecretKey`: the bytes of the key, 1281 of them.
#[verifier::external_body]
pub(crate) fn falcon512_secret_key_to_bytes(key: &pqcrypto::sign::falcon512::SecretKey) -> (bytes: Vec<u8>)
    ensures
        bytes@ == falcon512_secret_key_bytes(*key),
        bytes@.len() == 1281,
{
    pqcrypto::traits::sign::SecretKey::as_bytes(key).to_vec()
}

/// `from_bytes` of `falcon512::PublicKey`: succeeds on exactly the 897-byte
/// inputs, and the key then holds the input. The error of `from_bytes`
/// comes back as the text that its `Display` gives.
#[verifier::external_body]
pub(crate) fn falcon512_public_key_from_bytes(bytes: &[u8]) -> (key: Result<pqcrypto::sign::falcon512::PublicKey, String>)
    ensures
        key is Ok <==> bytes@.len() == 897,
        key matches Ok(public) ==> falcon512_public_key_bytes(public) == bytes@,
{
    pqcrypto::traits::sign::PublicKey::from_bytes(bytes).map_err(|e| e.to_string())
}

/// `falcon512::detached_sign`, and `as_bytes` of what it returns, on a secret
/// key that key generation made: at most 752 bytes. They are empty where the
/// signer failed, which `detached_sign` does not report. Any other outcome
/// is a signature that `verify_detached_signature` accepts for the message
/// under the public key made with the secret key, as the crate's own tests
/// show of every detached signature. Falcon signing draws randomness, so
/// nothing more is claimed of the bytes.
#[verifier::external_body]
pub(crate) fn falcon512_sign(secret: &pqcrypto::sign::falcon512::SecretKey, message: &[u8]) -> (signature: Vec<u8>)
    requires
        falcon512_signing_key(falcon512_secret_key_bytes(*secret)),
    ensures
        signature@.len() <= 752,
        (signature@.len() > 0) ==> falcon512_verifies(
            falcon512_public_of(falcon512_secret_key_bytes(*secret)),
            message@,
            signature@,
        ),
{
    let detached = pqcrypto::sign::falcon512::detached_sign(message, secret);
    pqcrypto::traits::sign::DetachedSignature::as_bytes(&detached).to_vec()
}

/// `from_bytes` of `falcon512::DetachedSignature`, then
/// `falcon512::verify_detached_signature`. An input of more than 752 bytes
/// gives the error of `from_bytes`, as the text that its `Display` gives; any
/// other gives whether the signature matches. Nothing shorter than a header
/// byte and a 40-byte nonce matches.
#[verifier::external_body]
pub(crate) fn falcon512_verify(
    public: &pqcrypto::sign::falcon512::PublicKey,
    message: &[u8],
    signature: &[u8],
) -> (valid: Result<bool, String>)
    ensures
        valid is Ok <==> signature@.len() <= 752,
        valid matches Ok(accepted) ==> accepted == falcon512_verifies(
            falcon512_public_key_bytes(*public),
            message@,
            signature@,
        ),
        valid matches Ok(accepted) ==> (accepted ==> signature@.len() >= 41),
{
    let parsed: pqcrypto::sign::falcon512::DetachedSignature =
        pqcrypto::traits::sign::DetachedSignature::from_bytes(signature).map_err(|e| e.to_string())?;
    Ok(pqcrypto::sign::falcon512::verify_detached_signature(&parsed, message, public).is_ok())
}

/// `from_bytes` of `falcon512::SecretKey` on 1281 zero bytes: the key that
/// holds nothing but zeroes.
#[verifier::external_body]
pub(crate) fn falcon512_zero_secret_key() -> (key: Option<pqcrypto::sign::falcon512::SecretKey>)
    ensures
        key is Some,
        key matches Some(zero) ==> falcon512_secret_key_bytes(zero) == Seq::new(1281, |i: int| 0u8),
    opens_invariants none
    no_unwind
{
    let zeroes = [0u8; 1281];
    pqcrypto::traits::sign::SecretKey::from_bytes(&zeroes).ok()
}

/// `falcon1024::keypair`: a secret key drawn at random, one that the signer
/// can use, and the public key that is made together with it. Nothing is
/// claimed of the secret key's value.
#[verifier::external_body]
pub(crate) fn falcon1024_generate() -> (pair: (pqcrypto::sign::falcon1024::PublicKey, pqcrypto::sign::falcon1024::SecretKey))
    ensures
        falcon1024_signing_key(falcon1024_secret_key_bytes(pair.1)),
        falcon1024_public_key_bytes(pair.0) == falcon1024_public_of(falcon1024_secret_key_bytes(pair.1)),
{
    pqcrypto::sign::falcon1024::keypair()
}

/// `as_bytes` of a `falcon1024::PublicKey`: the bytes of the key, 1793 of them.
#[verifier::external_body]
pub(crate) fn falcon1024_public_key_to_bytes(key: &pqcrypto::sign::falcon1024::PublicKey) -> (bytes: Vec<u8>)
    ensures
        bytes@ == falcon1024_public_key_bytes(*key),
        bytes@.len() == 1793,
{
    pqcrypto::traits::sign::PublicKey::as_bytes(key).to_vec()
}

/// `as_bytes` of a `falcon1024::SecretKey`: the bytes of the key, 2305 of them.
#[verifier::external_body]
pub(crate) fn falcon1024_secret_key_to_bytes(key: &pqcrypto::sign::falcon1024::SecretKey) -> (bytes: Vec<u8>)
    ensures
        bytes@ == falcon1024_secret_key_bytes(*key),
        bytes@.len() == 2305,
{
    pqcrypto::traits::sign::SecretKey::as_bytes(key).to_vec()
}

/// `from_bytes` of `falcon1024::PublicKey`: succeeds on exactly the 1793-byte
/// inputs, and the key then holds the input. The error of `from_bytes`
/// comes back as the text that its `Display` gives.
#[verifier::external_body]
pub(crate) fn falcon1024_public_key_from_bytes(bytes: &[u8]) -> (key: Result<pqcrypto::sign::falcon1024::PublicKey, String>)
    ensures
        key is Ok <==> bytes@.len() == 1793,
        key matches Ok(public) ==> falcon1024_public_key_bytes(public) == bytes@,
{
    pqcrypto::traits::sign::PublicKey::from_bytes(bytes).map_err(|e| e.to_string())
}

/// `falcon1024::detached_sign`, and `as_bytes` of what it returns, on a secret
/// key that key generation made: at most 1462 bytes. They are empty where the
/// signer failed, which `detached_sign` does not report. Any other outcome
/// is a signature that `verify_detached_signature` accepts for the message
/// under the public key made with the secret key, as the crate's own tests
/// show of every detached signature. Falcon signing draws randomness, so
/// nothing more is claimed of the bytes.
#[verifier::external_body]
pub(crate) fn falcon1024_sign(secret: &pqcrypto::sign::falcon1024::SecretKey, message: &[u8]) -> (signature: Vec<u8>)
    requires
        falcon1024_signing_key(falcon1024_secret_key_bytes(*secret)),
    ensures
        signature@.len() <= 1462,
        (signature@.len() > 0) ==> falcon1024_verifies(
            falcon1024_public_of(falcon1024_secret_key_bytes(*secret)),
            message@,
            signature@,
        ),
{
    let detached = pqcrypto::sign::falcon1024::detached_sign(message, secret);
    pqcrypto::traits::sign::DetachedSignature::as_bytes(&detached).to_vec()
}

/// `from_bytes` of `falcon1024::DetachedSignature`, then
/// `falcon1024::verify_detached_signature`. An input of more than 1462 bytes
/// gives the error of `from_bytes`, as the text that its `Display` gives; any
/// other gives whether the signature matches. Nothing shorter than a header
/// byte and a 40-byte nonce matches.
#[verifier::external_body]
pub(crate) fn falcon1024_verify(
    public: &pqcrypto::sign::falcon1024::PublicKey,
    message: &[u8],
    signature: &[u8],
) -> (valid: Result<bool, String>)
    ensures
        valid is Ok <==> signature@.len() <= 1462,
        valid matches Ok(accepted) ==> accepted == falcon1024_verifies(
            falcon1024_public_key_bytes(*public),
            message@,
            signature@,
        ),
        valid matches Ok(accepted) ==> (accepted ==> signature@.len() >= 41),
{
    let parsed: pqcrypto::sign::falcon1024::DetachedSignature =
        pqcrypto::traits::sign::DetachedSignature::from_bytes(signature).map_err(|e| e.to_string())?;
    Ok(pqcrypto::sign::falcon1024::verify_detached_signature(&parsed, message, public).is_ok())
}

/// `from_bytes` of `falcon1024::SecretKey` on 2305 zero bytes: the key that
/// holds nothing but zeroes.
#[verifier::external_body]
pub(crate) fn falcon1024_zero_secret_key() -> (key: Option<pqcrypto::sign::falcon1024::SecretKey>)
    ensures
        key is Some,
        key matches Some(zero) ==> falcon1024_secret_key_bytes(zero) == Seq::new(2305, |i: int| 0u8),
    opens_invariants none
    no_unwind
{
    let zeroes = [0u8; 2305];
    pqcrypto::traits::sign::SecretKey::from_bytes(&zeroes).ok()
}

/// `std::hint::black_box` on a reference: it asks the compiler to take the
/// value behind it for used, so that a store made just before is kept. The
/// standard library promises this as best effort only.
#[verifier::external_body]
pub(crate) fn keep_stored<T>(value: &T)
    opens_invariants none
    no_unwind
{
    std::hint::black_box(value);
}

} // verus!
