use crate::format::ad::AssociatedData;
use crate::format::algorithm::SignatureAlgorithm;
use vstd::prelude::*;

verus! {

/// A persisted identity: who owns the keys, and the keys as plain bytes.
#[derive(Debug, Clone, PartialEq)]
pub struct Keypair {
    pub ad: AssociatedData,
    pub keys: Vec<KeySlot>,
}

/// One key of a persisted identity, as plain bytes.
#[derive(Debug, Clone, PartialEq)]
pub struct KeySlot {
    /// The signature algorithm this key uses.
    pub algorithm: SignatureAlgorithm,
    /// The public key of this keypair.
    pub public_key: Vec<u8>,
    /// The private key of this keypair;
    /// if this does not exist, it indicates this is *someone else's* keypair,
    /// to be used for verification.
    pub private_key: Option<Vec<u8>>,
}

} // verus!
