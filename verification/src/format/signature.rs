use crate::format::algorithm::SignatureAlgorithm;
use vstd::prelude::*;
use vstd::slice::slice_to_vec;

verus! {

/// One algorithm's signature, with the digest that identifies the key that
/// made it.
#[derive(Debug, PartialEq)]
pub struct SignatureSlot {
    /// The algorithm that made the signature.
    pub algorithm: SignatureAlgorithm,
    /// The BLAKE3 hash of the signer's public key. It identifies a key, and
    /// does not depend on the hash algorithm that digests the content.
    pub public_key_digest: [u8; 32],
    /// The detached signature.
    pub signature: Vec<u8>,
}

/// A slot as plain mathematical data.
pub struct SlotView {
    pub algorithm: SignatureAlgorithm,
    pub public_key_digest: Seq<u8>,
    pub signature: Seq<u8>,
}

impl View for SignatureSlot {
    type V = SlotView;

    open spec fn view(&self) -> SlotView {
        SlotView {
            algorithm: self.algorithm,
            public_key_digest: self.public_key_digest@,
            signature: self.signature@,
        }
    }
}

impl Clone for SignatureSlot {
    fn clone(&self) -> (copy: Self)
        ensures
            copy@ == self@,
    {
        SignatureSlot {
            algorithm: self.algorithm,
            public_key_digest: self.public_key_digest,
            signature: slice_to_vec(self.signature.as_slice()),
        }
    }
}

impl SlotView {
    /// What every slot of the library satisfies: the identifying digest has
    /// 32 bytes, and the signature's length fits the 8-byte length prefix.
    pub open spec fn wf(self) -> bool {
        self.public_key_digest.len() == 32 && self.signature.len() <= u64::MAX
    }
}

} // verus!
