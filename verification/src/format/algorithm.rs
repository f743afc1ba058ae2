use vstd::prelude::*;

verus! {

/// The signature algorithms a slot can carry. The numeric ids are part of the
/// wire format and never change.
#[derive(Debug, Copy, Clone, Eq, PartialEq, Structural)]
pub enum SignatureAlgorithm {
    /// The Ed25519 signature algorithm, id 1.
    Ed25519,
    /// The Falcon post-quantum signature algorithm, Falcon-512 variant, id 2.
    Falcon512,
    /// The Falcon post-quantum signature algorithm, Falcon-1024 variant, id 3.
    Falcon1024,
}

impl SignatureAlgorithm {
    /// The id that stands for this algorithm on the wire.
    pub open spec fn spec_id(self) -> u8 {
        match self {
            SignatureAlgorithm::Ed25519 => 1,
            SignatureAlgorithm::Falcon512 => 2,
            SignatureAlgorithm::Falcon1024 => 3,
        }
    }

    /// The algorithm that a wire id stands for, if any.
    pub open spec fn spec_from_id(id: u8) -> Option<SignatureAlgorithm> {
        if id == 1 {
            Some(SignatureAlgorithm::Ed25519)
        } else if id == 2 {
            Some(SignatureAlgorithm::Falcon512)
        } else if id == 3 {
            Some(SignatureAlgorithm::Falcon1024)
        } else {
            None
        }
    }

    /// The length of a public key in bytes.
    pub open spec fn spec_public_key_len(self) -> nat {
        match self {
            SignatureAlgorithm::Ed25519 => 32,
            SignatureAlgorithm::Falcon512 => 897,
            SignatureAlgorithm::Falcon1024 => 1793,
        }
    }

    /// The length of a private key in bytes.
    pub open spec fn spec_private_key_len(self) -> nat {
        match self {
            SignatureAlgorithm::Ed25519 => 32,
            SignatureAlgorithm::Falcon512 => 1281,
            SignatureAlgorithm::Falcon1024 => 2305,
        }
    }

    /// The longest signature the algorithm produces, in bytes. Ed25519
    /// signatures always have this length; Falcon signatures vary below it.
    pub open spec fn spec_max_signature_len(self) -> nat {
        match self {
            SignatureAlgorithm::Ed25519 => 64,
            SignatureAlgorithm::Falcon512 => 752,
            SignatureAlgorithm::Falcon1024 => 1462,
        }
    }

    /// The current default primary signature algorithm, Ed25519.
    pub fn default_primary() -> (algorithm: Self)
        ensures
            algorithm == SignatureAlgorithm::Ed25519,
    {
        SignatureAlgorithm::Ed25519
    }

    /// The current default secondary signature algorithm, Falcon-512.
    pub fn default_secondary() -> (algorithm: Self)
        ensures
            algorithm == SignatureAlgorithm::Falcon512,
    {
        SignatureAlgorithm::Falcon512
    }

    pub fn id(&self) -> (id: u8)
        ensures
            id == self.spec_id(),
    {
        match self {
            SignatureAlgorithm::Ed25519 => 1,
            SignatureAlgorithm::Falcon512 => 2,
            SignatureAlgorithm::Falcon1024 => 3,
        }
    }

    /// Validates a wire id against the closed set of algorithms.
    pub fn from_id(id: u8) -> (algorithm: Option<Self>)
        ensures
            algorithm == Self::spec_from_id(id),
    {
        if id == 1 {
            Some(SignatureAlgorithm::Ed25519)
        } else if id == 2 {
            Some(SignatureAlgorithm::Falcon512)
        } else if id == 3 {
            Some(SignatureAlgorithm::Falcon1024)
        } else {
            None
        }
    }

    pub fn public_key_len(&self) -> (len: usize)
        ensures
            len == self.spec_public_key_len(),
    {
        match self {
            SignatureAlgorithm::Ed25519 => 32,
            SignatureAlgorithm::Falcon512 => 897,
            SignatureAlgorithm::Falcon1024 => 1793,
        }
    }

    pub fn private_key_len(&self) -> (len: usize)
        ensures
            len == self.spec_private_key_len(),
    {
        match self {
            SignatureAlgorithm::Ed25519 => 32,
            SignatureAlgorithm::Falcon512 => 1281,
            SignatureAlgorithm::Falcon1024 => 2305,
        }
    }

    pub fn max_signature_len(&self) -> (len: usize)
        ensures
            len == self.spec_max_signature_len(),
    {
        match self {
            SignatureAlgorithm::Ed25519 => 64,
            SignatureAlgorithm::Falcon512 => 752,
            SignatureAlgorithm::Falcon1024 => 1462,
        }
    }

    /// An id names an algorithm exactly when it is the id of that algorithm.
    pub proof fn lemma_id_roundtrip(algorithm: SignatureAlgorithm, id: u8)
        ensures
            Self::spec_from_id(algorithm.spec_id()) == Some(algorithm),
            Self::spec_from_id(id) matches Some(found) ==> found.spec_id() == id,
    {
    }
}

/// The hash algorithms that can digest the signed content. The numeric ids
/// are part of the wire format and never change.
#[derive(Debug, Copy, Clone, Eq, PartialEq, Structural)]
pub enum HashAlgorithm {
    /// The BLAKE3 hash function, id 1.
    Blake3,
    /// The SHA-2 hash function with a 384-bit output, id 2.
    Sha2_384,
    /// The SHA-2 hash function with a 512-bit output, id 3.
    Sha2_512,
    /// The SHA-3 hash function with a 384-bit output, id 4.
    Sha3_384,
    /// The SHA-3 hash function with a 512-bit output, id 5.
    Sha3_512,
}

impl HashAlgorithm {
    /// The id that stands for this algorithm on the wire.
    pub open spec fn spec_id(self) -> u8 {
        match self {
            HashAlgorithm::Blake3 => 1,
            HashAlgorithm::Sha2_384 => 2,
            HashAlgorithm::Sha2_512 => 3,
            HashAlgorithm::Sha3_384 => 4,
            HashAlgorithm::Sha3_512 => 5,
        }
    }

    /// The algorithm that a wire id stands for, if any.
    pub open spec fn spec_from_id(id: u8) -> Option<HashAlgorithm> {
        if id == 1 {
            Some(HashAlgorithm::Blake3)
        } else if id == 2 {
            Some(HashAlgorithm::Sha2_384)
        } else if id == 3 {
            Some(HashAlgorithm::Sha2_512)
        } else if id == 4 {
            Some(HashAlgorithm::Sha3_384)
        } else if id == 5 {
            Some(HashAlgorithm::Sha3_512)
        } else {
            None
        }
    }

    /// The length in bytes of a digest that this algorithm produces.
    pub open spec fn spec_hash_len(self) -> nat {
        match self {
            HashAlgorithm::Blake3 => 32,
            HashAlgorithm::Sha2_384 => 48,
            HashAlgorithm::Sha2_512 => 64,
            HashAlgorithm::Sha3_384 => 48,
            HashAlgorithm::Sha3_512 => 64,
        }
    }

    /// Returns the length of a hash this algorithm produces in bytes.
    pub fn hash_len(&self) -> (len: usize)
        ensures
            len == self.spec_hash_len(),
    {
        match *self {
            HashAlgorithm::Blake3 => 32,
            HashAlgorithm::Sha2_384 => 48,
            HashAlgorithm::Sha2_512 => 64,
            HashAlgorithm::Sha3_384 => 48,
            HashAlgorithm::Sha3_512 => 64,
        }
    }

    pub fn id(&self) -> (id: u8)
        ensures
            id == self.spec_id(),
    {
        match self {
            HashAlgorithm::Blake3 => 1,
            HashAlgorithm::Sha2_384 => 2,
            HashAlgorithm::Sha2_512 => 3,
            HashAlgorithm::Sha3_384 => 4,
            HashAlgorithm::Sha3_512 => 5,
        }
    }

    /// Validates a wire id against the closed set of algorithms.
    pub fn from_id(id: u8) -> (algorithm: Option<Self>)
        ensures
            algorithm == Self::spec_from_id(id),
    {
        if id == 1 {
            Some(HashAlgorithm::Blake3)
        } else if id == 2 {
            Some(HashAlgorithm::Sha2_384)
        } else if id == 3 {
            Some(HashAlgorithm::Sha2_512)
        } else if id == 4 {
            Some(HashAlgorithm::Sha3_384)
        } else if id == 5 {
            Some(HashAlgorithm::Sha3_512)
        } else {
            None
        }
    }

    /// An id names an algorithm exactly when it is the id of that algorithm.
    pub proof fn lemma_id_roundtrip(algorithm: HashAlgorithm, id: u8)
        ensures
            Self::spec_from_id(algorithm.spec_id()) == Some(algorithm),
            Self::spec_from_id(id) matches Some(found) ==> found.spec_id() == id,
    {
    }
}

impl Default for HashAlgorithm {
    fn default() -> (algorithm: Self)
        ensures
            algorithm == HashAlgorithm::Blake3,
    {
        HashAlgorithm::Blake3
    }
}

} // verus!
