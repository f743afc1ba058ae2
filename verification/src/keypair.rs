use crate::error::Error;
use crate::format::algorithm::SignatureAlgorithm;
use crate::format::keypair::KeySlot;
use crate::format::signature::{SignatureSlot, SlotView};
use crate::primitives::eddsa::{
    ed25519_error_text, ed25519_generate, ed25519_point_decodes, ed25519_public_key_bytes,
    ed25519_public_key_from_bytes, ed25519_public_key_of_secret, ed25519_public_key_to_bytes,
    ed25519_public_of, ed25519_secret_key_bytes, ed25519_secret_key_from_bytes,
    ed25519_secret_key_to_bytes, ed25519_sign, ed25519_signature_of,
    ed25519_signature_well_formed, ed25519_verifies, ed25519_verify,
};
use crate::primitives::falcon::{
    falcon1024_generate, falcon1024_public_key_bytes, falcon1024_public_key_from_bytes,
    falcon1024_public_key_to_bytes, falcon1024_public_of, falcon1024_secret_key_bytes,
    falcon1024_secret_key_to_bytes, falcon1024_sign, falcon1024_signing_key,
    falcon1024_verifies, falcon1024_verify, falcon1024_zero_secret_key, falcon512_generate,
    falcon512_public_key_bytes, falcon512_public_key_from_bytes, falcon512_public_key_to_bytes,
    falcon512_public_of, falcon512_secret_key_bytes, falcon512_secret_key_to_bytes,
    falcon512_sign, falcon512_signing_key, falcon512_verifies, falcon512_verify,
    falcon512_zero_secret_key, keep_stored,
};
use crate::primitives::hashes::{blake3_hash, blake3_hash_bytes};
use vstd::prelude::*;
use vstd::slice::slice_to_vec;
use vstd::string::StringExecFns;

verus! {

/// A Falcon-512 secret key that key generation made. Only such a key is
/// ever handed to the signer, which need not return on other bytes; so the
/// key cannot be built from bytes, and its field is private.
pub struct Falcon512Secret {
    key: Box<pqcrypto::sign::falcon512::SecretKey>,
}

impl Falcon512Secret {
    #[verifier::type_invariant]
    spec fn made_by_key_generation(self) -> bool {
        falcon512_signing_key(falcon512_secret_key_bytes(*self.key))
    }

    /// The 1281 bytes of the key.
    pub closed spec fn spec_bytes(self) -> Seq<u8> {
        falcon512_secret_key_bytes(*self.key)
    }

    pub fn to_bytes(&self) -> (bytes: Vec<u8>)
        ensures
            bytes@ == self.spec_bytes(),
            bytes@.len() == 1281,
    {
        falcon512_secret_key_to_bytes(&self.key)
    }

    /// A detached signature over `message`, or no bytes where the signer
    /// failed.
    fn sign(&self, message: &[u8]) -> (signature: Vec<u8>)
        ensures
            signature@.len() <= 752,
            signature@.len() > 0 ==> falcon512_verifies(
                falcon512_public_of(self.spec_bytes()),
                message@,
                signature@,
            ),
    {
        proof {
            use_type_invariant(self);
        }
        falcon512_sign(&self.key, message)
    }

    /// Overwrites the key with zeroes and releases it.
    fn wipe(self)
        opens_invariants none
        no_unwind
    {
        let mut key = self.key;
        match falcon512_zero_secret_key() {
            Some(zero) => {
                *key = zero;
            },
            None => {},
        }
        keep_stored(&key);
    }
}

/// A Falcon-1024 secret key that key generation made. Only such a key is
/// ever handed to the signer, which need not return on other bytes; so the
/// key cannot be built from bytes, and its field is private.
pub struct Falcon1024Secret {
    key: Box<pqcrypto::sign::falcon1024::SecretKey>,
}

impl Falcon1024Secret {
    #[verifier::type_invariant]
    spec fn made_by_key_generation(self) -> bool {
        falcon1024_signing_key(falcon1024_secret_key_bytes(*self.key))
    }

    /// The 2305 bytes of the key.
    pub closed spec fn spec_bytes(self) -> Seq<u8> {
        falcon1024_secret_key_bytes(*self.key)
    }

    pub fn to_bytes(&self) -> (bytes: Vec<u8>)
        ensures
            bytes@ == self.spec_bytes(),
            bytes@.len() == 2305,
    {
        falcon1024_secret_key_to_bytes(&self.key)
    }

    /// A detached signature over `message`, or no bytes where the signer
    /// failed.
    fn sign(&self, message: &[u8]) -> (signature: Vec<u8>)
        ensures
            signature@.len() <= 1462,
            signature@.len() > 0 ==> falcon1024_verifies(
                falcon1024_public_of(self.spec_bytes()),
                message@,
                signature@,
            ),
    {
        proof {
            use_type_invariant(self);
        }
        falcon1024_sign(&self.key, message)
    }

    /// Overwrites the key with zeroes and releases it.
    fn wipe(self)
        opens_invariants none
        no_unwind
    {
        let mut key = self.key;
        match falcon1024_zero_secret_key() {
            Some(zero) => {
                *key = zero;
            },
            None => {},
        }
        keep_stored(&key);
    }
}

/// Key material of one of the three signature algorithms: a public key, and
/// the private key where this party can sign. A key without a private half
/// is someone else's, held to verify with.
#[allow(inconsistent_fields)]
pub enum Keypair {
    Ed25519 {
        public: Box<ed25519_dalek::PublicKey>,
        private: Option<Box<ed25519_dalek::SecretKey>>,
    },
    Falcon512 {
        public: Box<pqcrypto::sign::falcon512::PublicKey>,
        private: Option<Falcon512Secret>,
    },
    Falcon1024 {
        public: Box<pqcrypto::sign::falcon1024::PublicKey>,
        private: Option<Falcon1024Secret>,
    },
}

/// The signature encodings that an algorithm's verification takes as
/// well-formed, whether or not they match anything.
pub open spec fn signature_well_formed(algorithm: SignatureAlgorithm, signature: Seq<u8>) -> bool {
    match algorithm {
        SignatureAlgorithm::Ed25519 => ed25519_signature_well_formed(signature),
        SignatureAlgorithm::Falcon512 => signature.len() <= algorithm.spec_max_signature_len(),
        SignatureAlgorithm::Falcon1024 => signature.len() <= algorithm.spec_max_signature_len(),
    }
}

/// The public-key bytes that an algorithm takes on import.
pub open spec fn public_key_importable(algorithm: SignatureAlgorithm, bytes: Seq<u8>) -> bool {
    match algorithm {
        SignatureAlgorithm::Ed25519 => bytes.len() == algorithm.spec_public_key_len()
            && ed25519_point_decodes(bytes),
        SignatureAlgorithm::Falcon512 => bytes.len() == algorithm.spec_public_key_len(),
        SignatureAlgorithm::Falcon1024 => bytes.len() == algorithm.spec_public_key_len(),
    }
}

/// The private-key bytes that are taken on import beside a public key. A
/// key may come without a private half. An Ed25519 private key is taken
/// where it has 32 bytes and the public key is the one that belongs to it.
/// A Falcon private key is never taken: nothing can tell whether bytes are a
/// key that the Falcon signer can use.
pub open spec fn private_key_importable(
    algorithm: SignatureAlgorithm,
    public: Seq<u8>,
    private: Option<Seq<u8>>,
) -> bool {
    match private {
        Some(held) => algorithm == SignatureAlgorithm::Ed25519 && held.len() == 32
            && ed25519_public_of(held) == public,
        None => true,
    }
}

/// The bytes of an optional byte vector.
pub open spec fn optional_bytes(bytes: Option<Vec<u8>>) -> Option<Seq<u8>> {
    match bytes {
        Some(held) => Some(held@),
        None => None,
    }
}

/// The message of the error for a signer that gave no signature.
pub open spec fn no_signature_text() -> Seq<char> {
    "the signer gave no signature"@
}

/// Whether two byte strings are the same.
pub(crate) fn bytes_equal(left: &[u8], right: &[u8]) -> (same: bool)
    ensures
        same == (left@ == right@),
{
    if left.len() != right.len() {
        return false;
    }
    let mut i: usize = 0;
    while i < left.len()
        invariant
            i <= left.len(),
            left.len() == right.len(),
            forall|j: int| 0 <= j < i ==> left@[j] == right@[j],
        decreases left.len() - i,
    {
        if left[i] != right[i] {
            return false;
        }
        i += 1;
    }
    assert(left@ =~= right@);
    true
}

/// Makes the slot for a signature that a signer gave out. A signer that
/// failed gives no bytes, and then there is no slot.
pub fn slot_of_signature(
    algorithm: SignatureAlgorithm,
    public_key_digest: [u8; 32],
    signature: Vec<u8>,
) -> (slot: Result<SignatureSlot, Error>)
    ensures
        slot is Ok <==> signature@.len() > 0,
        slot matches Ok(made) ==> made@ == (SlotView {
            algorithm,
            public_key_digest: public_key_digest@,
            signature: signature@,
        }),
        slot matches Err(error) ==> (error matches Error::InvalidKey(detail) && detail@
            == no_signature_text()),
{
    if signature.len() == 0 {
        return Err(Error::InvalidKey(String::from_str("the signer gave no signature")));
    }
    Ok(SignatureSlot { algorithm, public_key_digest, signature })
}

impl Keypair {
    /// The algorithm of this key. It never changes.
    pub open spec fn spec_algorithm(self) -> SignatureAlgorithm {
        match self {
            Keypair::Ed25519 { .. } => SignatureAlgorithm::Ed25519,
            Keypair::Falcon512 { .. } => SignatureAlgorithm::Falcon512,
            Keypair::Falcon1024 { .. } => SignatureAlgorithm::Falcon1024,
        }
    }

    /// Whether the private half is present.
    pub open spec fn spec_has_private(self) -> bool {
        match self {
            Keypair::Ed25519 { private, .. } => private is Some,
            Keypair::Falcon512 { private, .. } => private is Some,
            Keypair::Falcon1024 { private, .. } => private is Some,
        }
    }

    /// The encoding of the public key.
    pub open spec fn spec_public_bytes(self) -> Seq<u8> {
        match self {
            Keypair::Ed25519 { public, .. } => ed25519_public_key_bytes(*public),
            Keypair::Falcon512 { public, .. } => falcon512_public_key_bytes(*public),
            Keypair::Falcon1024 { public, .. } => falcon1024_public_key_bytes(*public),
        }
    }

    /// The bytes of the private key, where there is one.
    pub open spec fn spec_private_bytes(self) -> Option<Seq<u8>> {
        match self {
            Keypair::Ed25519 { private, .. } => match private {
                Some(secret) => Some(ed25519_secret_key_bytes(*secret)),
                None => None,
            },
            Keypair::Falcon512 { private, .. } => match private {
                Some(secret) => Some(secret.spec_bytes()),
                None => None,
            },
            Keypair::Falcon1024 { private, .. } => match private {
                Some(secret) => Some(secret.spec_bytes()),
                None => None,
            },
        }
    }

    /// The encoding of the public key that belongs to the private half,
    /// where there is one.
    pub open spec fn spec_public_of_private(self) -> Option<Seq<u8>> {
        match self {
            Keypair::Ed25519 { private, .. } => match private {
                Some(secret) => Some(ed25519_public_of(ed25519_secret_key_bytes(*secret))),
                None => None,
            },
            Keypair::Falcon512 { private, .. } => match private {
                Some(secret) => Some(falcon512_public_of(secret.spec_bytes())),
                None => None,
            },
            Keypair::Falcon1024 { private, .. } => match private {
                Some(secret) => Some(falcon1024_public_of(secret.spec_bytes())),
                None => None,
            },
        }
    }

    /// Whether the two halves belong together: the public key is the one
    /// that belongs to the private key. A key without a private half has
    /// nothing that could disagree.
    pub open spec fn spec_matched(self) -> bool {
        match self.spec_public_of_private() {
            Some(public) => self.spec_public_bytes() == public,
            None => true,
        }
    }

    /// The digest that identifies this key in a slot and in a registry: the
    /// BLAKE3 hash of the public key's encoding, whatever algorithm digests
    /// the signed content.
    pub open spec fn spec_public_key_digest(self) -> Seq<u8> {
        blake3_hash(self.spec_public_bytes())
    }

    /// Whether the algorithm's verification accepts a well-formed signature
    /// for `data` under this public key.
    pub open spec fn spec_accepts(self, data: Seq<u8>, signature: Seq<u8>) -> bool {
        match self {
            Keypair::Ed25519 { public, .. } => ed25519_verifies(
                ed25519_public_key_bytes(*public),
                data,
                signature,
            ),
            Keypair::Falcon512 { public, .. } => falcon512_verifies(
                falcon512_public_key_bytes(*public),
                data,
                signature,
            ),
            Keypair::Falcon1024 { public, .. } => falcon1024_verifies(
                falcon1024_public_key_bytes(*public),
                data,
                signature,
            ),
        }
    }

    /// What the Ed25519 signature of this key over `data` is: Ed25519
    /// signing draws no randomness. For a Falcon key, whose signatures are
    /// drawn with randomness, and for a key without a private half, there
    /// is none.
    pub open spec fn spec_determined_signature(self, data: Seq<u8>) -> Option<Seq<u8>> {
        match self {
            Keypair::Ed25519 { public, private } => match private {
                Some(secret) => Some(
                    ed25519_signature_of(
                        ed25519_secret_key_bytes(*secret),
                        ed25519_public_key_bytes(*public),
                        data,
                    ),
                ),
                None => None,
            },
            Keypair::Falcon512 { .. } => None,
            Keypair::Falcon1024 { .. } => None,
        }
    }

    /// What holds of a slot that this key has signed over `data`: it names
    /// the key's algorithm and digest, and carries a signature that is not
    /// empty and is well formed. Where the two halves of the key belong
    /// together, verification under the public half accepts the signature
    /// for `data`. An Ed25519 signature is moreover determined by the key
    /// and the data.
    pub open spec fn spec_signed(self, data: Seq<u8>, slot: SlotView) -> bool {
        &&& slot.algorithm == self.spec_algorithm()
        &&& slot.public_key_digest == self.spec_public_key_digest()
        &&& slot.public_key_digest.len() == 32
        &&& slot.signature.len() > 0
        &&& signature_well_formed(slot.algorithm, slot.signature)
        &&& (self.spec_matched() ==> self.spec_accepts(data, slot.signature))
        &&& (self.spec_determined_signature(data) matches Some(signature) ==> slot.signature
            == signature)
    }

    /// A key's own signature verifies: where the two halves of a key belong
    /// together, as they do in every generated and every imported key, a
    /// slot that the key signed over `data` carries a well-formed signature
    /// that the key accepts for `data`. `verify` then answers `Ok(true)`.
    pub proof fn lemma_own_signature_verifies(self, data: Seq<u8>, slot: SlotView)
        requires
            self.spec_matched(),
            self.spec_signed(data, slot),
        ensures
            signature_well_formed(self.spec_algorithm(), slot.signature),
            self.spec_accepts(data, slot.signature),
    {
    }

    /// Verification needs the public half only: two keys of one algorithm
    /// with the same public key accept the same signatures.
    pub proof fn lemma_accepts_by_public_half(self, other: Keypair, data: Seq<u8>, signature: Seq<u8>)
        requires
            self.spec_algorithm() == other.spec_algorithm(),
            self.spec_public_bytes() == other.spec_public_bytes(),
        ensures
            self.spec_accepts(data, signature) == other.spec_accepts(data, signature),
    {
    }

    /// Draws a fresh keypair of the given algorithm from the system's secure
    /// random source. The key can sign, and its two halves belong together.
    pub fn new(algo: SignatureAlgorithm) -> (keypair: Self)
        ensures
            keypair.spec_algorithm() == algo,
            keypair.spec_has_private(),
            keypair.spec_matched(),
    {
        match algo {
            SignatureAlgorithm::Ed25519 => {
                let (public, secret) = ed25519_generate();
                Keypair::Ed25519 { public: Box::new(public), private: Some(Box::new(secret)) }
            },
            SignatureAlgorithm::Falcon512 => {
                let (public, secret) = falcon512_generate();
                Keypair::Falcon512 {
                    public: Box::new(public),
                    private: Some(Falcon512Secret { key: Box::new(secret) }),
                }
            },
            SignatureAlgorithm::Falcon1024 => {
                let (public, secret) = falcon1024_generate();
                Keypair::Falcon1024 {
                    public: Box::new(public),
                    private: Some(Falcon1024Secret { key: Box::new(secret) }),
                }
            },
        }
    }

    pub fn algorithm(&self) -> (algorithm: SignatureAlgorithm)
        ensures
            algorithm == self.spec_algorithm(),
    {
        match self {
            Keypair::Ed25519 { .. } => SignatureAlgorithm::Ed25519,
            Keypair::Falcon512 { .. } => SignatureAlgorithm::Falcon512,
            Keypair::Falcon1024 { .. } => SignatureAlgorithm::Falcon1024,
        }
    }

    pub fn has_private(&self) -> (present: bool)
        ensures
            present == self.spec_has_private(),
    {
        match self {
            Keypair::Ed25519 { private, .. } => private.is_some(),
            Keypair::Falcon512 { private, .. } => private.is_some(),
            Keypair::Falcon1024 { private, .. } => private.is_some(),
        }
    }

    /// The encoding of the public key, of the length that the algorithm
    /// fixes.
    pub fn public_key_bytes(&self) -> (bytes: Vec<u8>)
        ensures
            bytes@ == self.spec_public_bytes(),
            bytes@.len() == self.spec_algorithm().spec_public_key_len(),
    {
        match self {
            Keypair::Ed25519 { public, .. } => {
                let encoded = ed25519_public_key_to_bytes(public);
                slice_to_vec(encoded.as_slice())
            },
            Keypair::Falcon512 { public, .. } => falcon512_public_key_to_bytes(public),
            Keypair::Falcon1024 { public, .. } => falcon1024_public_key_to_bytes(public),
        }
    }

    /// The digest that identifies this key.
    pub fn public_key_digest(&self) -> (digest: [u8; 32])
        ensures
            digest@ == self.spec_public_key_digest(),
    {
        let bytes = self.public_key_bytes();
        blake3_hash_bytes(bytes.as_slice())
    }

    /// Signs `data`, which is the digest of the content, and returns the slot
    /// that carries the detached signature. A key without a private half
    /// gives `NoPrivateKey`, and nothing else does. An Ed25519 key with its
    /// private half always signs. A Falcon key signs unless its signer
    /// fails, which gives `InvalidKey`; an empty signature is never handed
    /// on.
    pub fn sign(&self, data: &[u8]) -> (slot: Result<SignatureSlot, Error>)
        ensures
            !self.spec_has_private() <==> slot == Err::<SignatureSlot, Error>(Error::NoPrivateKey),
            (self is Ed25519 && self.spec_has_private()) ==> slot is Ok,
            slot matches Ok(signed) ==> self.spec_signed(data@, signed@),
            slot matches Ok(signed) ==> signed.signature@.len() > 0,
            slot matches Err(error) ==> (error == Error::NoPrivateKey || (error matches Error::InvalidKey(
                detail,
            ) && detail@ == no_signature_text())),
    {
        let signature = match self {
            Keypair::Ed25519 { public, private } => match private {
                Some(secret) => ed25519_sign(secret, public, data),
                None => { return Err(Error::NoPrivateKey); },
            },
            Keypair::Falcon512 { private, .. } => match private {
                Some(secret) => secret.sign(data),
                None => { return Err(Error::NoPrivateKey); },
            },
            Keypair::Falcon1024 { private, .. } => match private {
                Some(secret) => secret.sign(data),
                None => { return Err(Error::NoPrivateKey); },
            },
        };
        slot_of_signature(self.algorithm(), self.public_key_digest(), signature)
    }

    /// Verifies a detached signature over `data`. A well-formed signature
    /// that does not match gives `false`; an encoding that the algorithm
    /// cannot read gives `InvalidSignature`. The private half plays no part.
    pub fn verify(&self, data: &[u8], signature: &[u8]) -> (valid: Result<bool, Error>)
        ensures
            valid is Ok <==> signature_well_formed(self.spec_algorithm(), signature@),
            valid matches Ok(accepted) ==> accepted == self.spec_accepts(data@, signature@),
            valid matches Err(error) ==> error is InvalidSignature,
            (self !is Ed25519 && signature@.len() < 41) ==> valid == Ok::<bool, Error>(false),
    {
        match self {
            Keypair::Ed25519 { public, .. } => match ed25519_verify(public, data, signature) {
                Ok(accepted) => Ok(accepted),
                Err(error) => Err(Error::InvalidSignature(ed25519_error_text(&error))),
            },
            Keypair::Falcon512 { public, .. } => match falcon512_verify(public, data, signature) {
                Ok(accepted) => Ok(accepted),
                Err(text) => Err(Error::InvalidSignature(text)),
            },
            Keypair::Falcon1024 { public, .. } => match falcon1024_verify(public, data, signature) {
                Ok(accepted) => Ok(accepted),
                Err(text) => Err(Error::InvalidSignature(text)),
            },
        }
    }

    /// Brings key bytes into live key material. The public key must have
    /// the shape that the algorithm expects. A slot without private bytes
    /// gives a key that only verifies. An Ed25519 private key is taken where
    /// it has 32 bytes and the public key is the one that belongs to it. A
    /// Falcon private key is refused: the Falcon signer need not return on
    /// bytes that key generation did not make, and nothing can tell such
    /// bytes apart.
    pub fn from_key_slot(slot: &KeySlot) -> (keypair: Result<Self, Error>)
        ensures
            keypair is Ok <==> (public_key_importable(slot.algorithm, slot.public_key@)
                && private_key_importable(
                slot.algorithm,
                slot.public_key@,
                optional_bytes(slot.private_key),
            )),
            keypair matches Ok(imported) ==> (imported.spec_algorithm() == slot.algorithm
                && imported.spec_public_bytes() == slot.public_key@
                && imported.spec_private_bytes() == optional_bytes(slot.private_key)
                && imported.spec_matched()),
            keypair matches Err(error) ==> error is InvalidKey,
    {
        match slot.algorithm {
            SignatureAlgorithm::Ed25519 => {
                let public = match ed25519_public_key_from_bytes(slot.public_key.as_slice()) {
                    Ok(public) => public,
                    Err(error) => { return Err(Error::InvalidKey(ed25519_error_text(&error))); },
                };
                let private = match &slot.private_key {
                    Some(bytes) => match ed25519_secret_key_from_bytes(bytes.as_slice()) {
                        Ok(secret) => {
                            let own = ed25519_public_key_to_bytes(&ed25519_public_key_of_secret(
                                &secret,
                            ));
                            if !bytes_equal(own.as_slice(), slot.public_key.as_slice()) {
                                return Err(
                                    Error::InvalidKey(
                                        String::from_str(
                                            "the public key does not belong to the private key",
                                        ),
                                    ),
                                );
                            }
                            Some(Box::new(secret))
                        },
                        Err(error) => {
                            return Err(Error::InvalidKey(ed25519_error_text(&error)));
                        },
                    },
                    None => None,
                };
                Ok(Keypair::Ed25519 { public: Box::new(public), private })
            },
            SignatureAlgorithm::Falcon512 => {
                let public = match falcon512_public_key_from_bytes(slot.public_key.as_slice()) {
                    Ok(public) => public,
                    Err(text) => { return Err(Error::InvalidKey(text)); },
                };
                if slot.private_key.is_some() {
                    return Err(
                        Error::InvalidKey(
                            String::from_str("a Falcon private key cannot be taken from bytes"),
                        ),
                    );
                }
                Ok(Keypair::Falcon512 { public: Box::new(public), private: None })
            },
            SignatureAlgorithm::Falcon1024 => {
                let public = match falcon1024_public_key_from_bytes(slot.public_key.as_slice()) {
                    Ok(public) => public,
                    Err(text) => { return Err(Error::InvalidKey(text)); },
                };
                if slot.private_key.is_some() {
                    return Err(
                        Error::InvalidKey(
                            String::from_str("a Falcon private key cannot be taken from bytes"),
                        ),
                    );
                }
                Ok(Keypair::Falcon1024 { public: Box::new(public), private: None })
            },
        }
    }

    /// Writes this key out as plain bytes, the private half included where
    /// there is one. The bytes have the lengths that the algorithm fixes.
    pub fn to_key_slot(&self) -> (slot: KeySlot)
        ensures
            slot.algorithm == self.spec_algorithm(),
            slot.public_key@ == self.spec_public_bytes(),
            slot.public_key@.len() == slot.algorithm.spec_public_key_len(),
            optional_bytes(slot.private_key) == self.spec_private_bytes(),
            slot.private_key matches Some(held) ==> held@.len()
                == slot.algorithm.spec_private_key_len(),
    {
        let private_key = match self {
            Keypair::Ed25519 { private, .. } => match private {
                Some(secret) => {
                    let held = ed25519_secret_key_to_bytes(secret);
                    Some(slice_to_vec(held.as_slice()))
                },
                None => None,
            },
            Keypair::Falcon512 { private, .. } => match private {
                Some(secret) => Some(secret.to_bytes()),
                None => None,
            },
            Keypair::Falcon1024 { private, .. } => match private {
                Some(secret) => Some(secret.to_bytes()),
                None => None,
            },
        };
        KeySlot { algorithm: self.algorithm(), public_key: self.public_key_bytes(), private_key }
    }

    /// The same key without its private half, as it is handed to those who
    /// verify.
    pub fn public_only(&self) -> (public_half: Self)
        ensures
            public_half.spec_algorithm() == self.spec_algorithm(),
            public_half.spec_public_bytes() == self.spec_public_bytes(),
            !public_half.spec_has_private(),
    {
        match self {
            Keypair::Ed25519 { public, .. } => Keypair::Ed25519 {
                public: Box::new(**public),
                private: None,
            },
            Keypair::Falcon512 { public, .. } => Keypair::Falcon512 {
                public: Box::new(**public),
                private: None,
            },
            Keypair::Falcon1024 { public, .. } => Keypair::Falcon1024 {
                public: Box::new(**public),
                private: None,
            },
        }
    }

    /// Gives up the private half, overwriting it on the way. The key goes on
    /// verifying. An Ed25519 secret key overwrites itself with zeroes as it
    /// is released; a Falcon secret key is overwritten with zeroes here
    /// before it is released.
    pub fn erase_private(&mut self)
        ensures
            !final(self).spec_has_private(),
            final(self).spec_algorithm() == old(self).spec_algorithm(),
            final(self).spec_public_bytes() == old(self).spec_public_bytes(),
        opens_invariants none
        no_unwind
    {
        match self {
            Keypair::Ed25519 { private, .. } => {
                *private = None;
            },
            Keypair::Falcon512 { private, .. } => {
                let mut taken: Option<Falcon512Secret> = None;
                core::mem::swap(private, &mut taken);
                match taken {
                    Some(secret) => secret.wipe(),
                    None => {},
                }
            },
            Keypair::Falcon1024 { private, .. } => {
                let mut taken: Option<Falcon1024Secret> = None;
                core::mem::swap(private, &mut taken);
                match taken {
                    Some(secret) => secret.wipe(),
                    None => {},
                }
            },
        }
    }
}

impl Drop for Keypair {
    /// Destruction erases the private half: it is overwritten and given up
    /// before the key's memory is released, on whatever path the key goes
    /// out of scope. Algorithm and public key are left as they were.
    fn drop(&mut self)
        ensures
            !final(self).spec_has_private(),
            final(self).spec_algorithm() == old(self).spec_algorithm(),
            final(self).spec_public_bytes() == old(self).spec_public_bytes(),
        opens_invariants none
        no_unwind
    {
        self.erase_private();
    }
}

} // verus!
