pub mod ad;
pub mod algorithm;
pub mod keypair;
pub mod signature;
pub mod wire;

use crate::error::{Error, FormatError};
pub use ad::AssociatedData;
pub use algorithm::{HashAlgorithm, SignatureAlgorithm};
pub use keypair::{KeySlot, Keypair};
pub use signature::{SignatureSlot, SlotView};
use vstd::bytes::{u64_from_le_bytes, u64_to_le_bytes};
use vstd::prelude::*;
use vstd::slice::{slice_subrange, slice_to_vec};
pub use wire::ContainerView;
use wire::{
    decode, decode_slot, decode_slots, encode, encode_slot, encode_slots, magic, HEADER_LEN,
    MAX_SIGNATURES, SLOT_HEADER_LEN, VERSION,
};

verus! {

/// The slots of a vector, each as plain mathematical data.
pub open spec fn slot_views(slots: Seq<SignatureSlot>) -> Seq<SlotView> {
    Seq::new(slots.len(), |i: int| slots[i]@)
}

/// A signature container: the hash algorithm that digested the content, and
/// the signatures over that digest in the order in which they were asked
/// for. It holds at most 255 slots and is never changed once made.
#[derive(Debug, PartialEq)]
pub struct GungnirSignature {
    version: u8,
    hash_algorithm: HashAlgorithm,
    signatures: Vec<SignatureSlot>,
}

impl View for GungnirSignature {
    type V = ContainerView;

    closed spec fn view(&self) -> ContainerView {
        ContainerView {
            version: self.version,
            hash_algorithm: self.hash_algorithm,
            slots: slot_views(self.signatures@),
        }
    }
}

impl Clone for GungnirSignature {
    fn clone(&self) -> (copy: Self)
        ensures
            copy@ == self@,
    {
        proof {
            use_type_invariant(self);
        }
        let mut signatures: Vec<SignatureSlot> = Vec::new();
        let mut i: usize = 0;
        while i < self.signatures.len()
            invariant
                i <= self.signatures.len(),
                signatures@.len() == i,
                forall|j: int| 0 <= j < i ==> signatures@[j]@ == self.signatures@[j]@,
            decreases self.signatures.len() - i,
        {
            signatures.push(self.signatures[i].clone());
            i += 1;
        }
        assert(slot_views(signatures@) =~= slot_views(self.signatures@));
        GungnirSignature {
            version: self.version,
            hash_algorithm: self.hash_algorithm,
            signatures,
        }
    }
}

/// Adds `data` to the end of `out`.
fn append_bytes(out: &mut Vec<u8>, data: &[u8])
    ensures
        final(out)@ == old(out)@ + data@,
{
    let mut i: usize = 0;
    while i < data.len()
        invariant
            i <= data.len(),
            out@ == old(out)@ + data@.take(i as int),
        decreases data.len() - i,
    {
        out.push(data[i]);
        assert(data@.take(i + 1) =~= data@.take(i as int).push(data@[i as int]));
        i += 1;
    }
    assert(data@.take(i as int) =~= data@);
}

/// Adds the encoding of `slot` to the end of `out`.
fn append_slot(out: &mut Vec<u8>, slot: &SignatureSlot)
    ensures
        final(out)@ == old(out)@ + encode_slot(slot@),
        slot@.wf(),
{
    out.push(slot.algorithm.id());
    append_bytes(out, slot.public_key_digest.as_slice());
    let length = u64_to_le_bytes(slot.signature.len() as u64);
    append_bytes(out, length.as_slice());
    append_bytes(out, slot.signature.as_slice());
    assert(out@ =~= old(out)@ + encode_slot(slot@));
}

/// Whether `bytes` starts with the magic marker.
fn starts_with_magic(bytes: &[u8]) -> (found: bool)
    ensures
        found == (bytes@.len() >= 8 && bytes@.subrange(0, 8) == magic()),
{
    if bytes.len() < 8 {
        return false;
    }
    let found = bytes[0] == 0x47 && bytes[1] == 0x55 && bytes[2] == 0x4e && bytes[3] == 0x47
        && bytes[4] == 0x4e && bytes[5] == 0x49 && bytes[6] == 0x52 && bytes[7] == 0x42;
    proof {
        let head = bytes@.subrange(0, 8);
        if found {
            assert(head =~= magic());
        } else {
            assert(head[0] == bytes@[0] && head[1] == bytes@[1] && head[2] == bytes@[2]
                && head[3] == bytes@[3] && head[4] == bytes@[4] && head[5] == bytes@[5]
                && head[6] == bytes@[6] && head[7] == bytes@[7]);
        }
    }
    found
}

/// Reads the slot that starts at `start`, and says where the next one starts.
fn read_slot(bytes: &[u8], start: usize) -> (read: Result<(SignatureSlot, usize), FormatError>)
    requires
        start <= bytes@.len(),
    ensures
        match decode_slot(bytes@.skip(start as int)) {
            Ok((slot, used)) => read matches Ok((found, next)) && found@ == slot && next == start
                + used,
            Err(error) => read == Err::<(SignatureSlot, usize), FormatError>(error),
        },
{
    let ghost rest = bytes@.skip(start as int);
    let available = bytes.len() - start;
    if available < 1 {
        return Err(FormatError::Truncated);
    }
    assert(rest[0] == bytes@[start as int]);
    let algorithm = match SignatureAlgorithm::from_id(bytes[start]) {
        Some(algorithm) => algorithm,
        None => { return Err(FormatError::UnknownSignatureAlgorithm(bytes[start])); },
    };
    if available < SLOT_HEADER_LEN {
        return Err(FormatError::Truncated);
    }
    let length = u64_from_le_bytes(slice_subrange(bytes, start + 33, start + 41));
    assert(bytes@.subrange(start + 33, start + 41) =~= rest.subrange(33, 41));
    if ((available - SLOT_HEADER_LEN) as u64) < length {
        return Err(FormatError::Truncated);
    }
    let length = length as usize;
    let mut public_key_digest = [0u8; 32];
    let mut i: usize = 0;
    while i < 32
        invariant
            i <= 32,
            start + 41 <= bytes.len(),
            forall|j: int| 0 <= j < i ==> public_key_digest@[j] == bytes@[start + 1 + j],
        decreases 32 - i,
    {
        public_key_digest[i] = bytes[start + 1 + i];
        i += 1;
    }
    assert(public_key_digest@ =~= rest.subrange(1, 33));
    let signature = slice_to_vec(slice_subrange(bytes, start + 41, start + 41 + length));
    assert(signature@ =~= rest.subrange(41, 41 + length));
    Ok((SignatureSlot { algorithm, public_key_digest, signature }, start + 41 + length))
}

impl GungnirSignature {
    #[verifier::type_invariant]
    spec fn well_formed(self) -> bool {
        self.version == VERSION && self.signatures@.len() <= MAX_SIGNATURES
    }

    /// Makes a container of the current version. It has room for 255 slots;
    /// more are refused, never cut off.
    pub fn new(hash_algorithm: HashAlgorithm, signatures: Vec<SignatureSlot>) -> (container:
        Result<Self, Error>)
        ensures
            container is Ok <==> signatures@.len() <= MAX_SIGNATURES,
            container matches Ok(made) ==> made@ == (ContainerView {
                version: VERSION,
                hash_algorithm,
                slots: slot_views(signatures@),
            }),
            container matches Err(error) ==> error == Error::Capacity,
    {
        if signatures.len() > MAX_SIGNATURES {
            return Err(Error::Capacity);
        }
        Ok(GungnirSignature { version: VERSION, hash_algorithm, signatures })
    }

    /// The version of the layout, always the current one.
    pub fn version(&self) -> (version: u8)
        ensures
            version == self@.version,
            version == VERSION,
    {
        proof {
            use_type_invariant(self);
        }
        self.version
    }

    /// The algorithm that digested the signed content.
    pub fn hash_algorithm(&self) -> (algorithm: HashAlgorithm)
        ensures
            algorithm == self@.hash_algorithm,
    {
        self.hash_algorithm
    }

    /// The number of slots, as the count byte holds it.
    pub fn signature_amt(&self) -> (count: u8)
        ensures
            count == self@.slots.len(),
    {
        proof {
            use_type_invariant(self);
        }
        self.signatures.len() as u8
    }

    /// The slots, in the order in which the signatures were asked for.
    pub fn signatures(&self) -> (slots: &Vec<SignatureSlot>)
        ensures
            slot_views(slots@) == self@.slots,
            slots@.len() <= MAX_SIGNATURES,
    {
        proof {
            use_type_invariant(self);
        }
        &self.signatures
    }

    /// The bytes of this container. They are in the layout that `parse`
    /// reads, and read back as this very container.
    pub fn serialize(&self) -> (bytes: Vec<u8>)
        ensures
            bytes@ == encode(self@),
            self@.wf(),
            decode(bytes@) == Ok::<ContainerView, FormatError>(self@),
    {
        proof {
            use_type_invariant(self);
        }
        let mut out: Vec<u8> = Vec::new();
        out.push(0x47);
        out.push(0x55);
        out.push(0x4e);
        out.push(0x47);
        out.push(0x4e);
        out.push(0x49);
        out.push(0x52);
        out.push(0x42);
        out.push(self.version);
        out.push(self.hash_algorithm.id());
        out.push(self.signatures.len() as u8);
        let ghost header = out@;
        assert(header =~= magic() + seq![
            self@.version,
            self@.hash_algorithm.spec_id(),
            self@.slots.len() as u8,
        ]);
        let mut i: usize = 0;
        while i < self.signatures.len()
            invariant
                i <= self.signatures.len(),
                out@ == header + encode_slots(self@.slots.take(i as int)),
                forall|j: int| 0 <= j < i ==> (#[trigger] self@.slots[j]).wf(),
            decreases self.signatures.len() - i,
        {
            append_slot(&mut out, &self.signatures[i]);
            proof {
                let next = self@.slots.take(i + 1);
                assert(next.drop_last() =~= self@.slots.take(i as int));
                assert(next.last() == self.signatures@[i as int]@);
                assert(out@ =~= header + encode_slots(next));
            }
            i += 1;
        }
        proof {
            assert(self@.slots.take(i as int) =~= self@.slots);
            wire::lemma_decode_encode(self@);
        }
        out
    }

    /// Reads a container from `bytes`. The whole input must be one
    /// container: a wrong magic marker, another version, an unknown
    /// algorithm id, a short input or bytes left over each give their error,
    /// and nothing is ever read in part.
    pub fn parse(bytes: &[u8]) -> (parsed: Result<Self, FormatError>)
        ensures
            match decode(bytes@) {
                Ok(container) => parsed matches Ok(read) && read@ == container,
                Err(error) => parsed == Err::<Self, FormatError>(error),
            },
    {
        if !starts_with_magic(bytes) {
            return Err(FormatError::BadMagic);
        }
        if bytes.len() < HEADER_LEN {
            return Err(FormatError::Truncated);
        }
        if bytes[8] != VERSION {
            return Err(FormatError::UnsupportedVersion(bytes[8]));
        }
        let hash_algorithm = match HashAlgorithm::from_id(bytes[9]) {
            Some(algorithm) => algorithm,
            None => { return Err(FormatError::UnknownHashAlgorithm(bytes[9])); },
        };
        let count = bytes[10] as usize;
        let ghost body = bytes@.skip(11);
        let mut signatures: Vec<SignatureSlot> = Vec::new();
        let mut position: usize = HEADER_LEN;
        let mut i: usize = 0;
        while i < count
            invariant
                i <= count <= MAX_SIGNATURES,
                HEADER_LEN <= position <= bytes@.len(),
                signatures@.len() == i,
                body == bytes@.skip(11),
                decode(bytes@) == match decode_slots(body, count as nat) {
                    Ok(slots) => Ok::<ContainerView, FormatError>(
                        ContainerView { version: VERSION, hash_algorithm, slots },
                    ),
                    Err(error) => Err(error),
                },
                decode_slots(body, count as nat) == match decode_slots(
                    bytes@.skip(position as int),
                    (count - i) as nat,
                ) {
                    Ok(rest) => Ok::<Seq<SlotView>, FormatError>(slot_views(signatures@) + rest),
                    Err(error) => Err(error),
                },
            decreases count - i,
        {
            let ghost before = slot_views(signatures@);
            match read_slot(bytes, position) {
                Err(error) => {
                    assert(decode_slots(bytes@.skip(position as int), (count - i) as nat) == Err::<
                        Seq<SlotView>,
                        FormatError,
                    >(error));
                    return Err(error);
                },
                Ok((slot, next)) => {
                    proof {
                        let here = bytes@.skip(position as int);
                        let (found, used) = decode_slot(here)->Ok_0;
                        wire::lemma_encode_decoded_slot(here);
                        assert(here.skip(used) =~= bytes@.skip(next as int));
                        assert(slot_views(signatures@.push(slot)) =~= before + seq![found]);
                        match decode_slots(bytes@.skip(next as int), (count - i - 1) as nat) {
                            Ok(rest) => {
                                assert(before + (seq![found] + rest) =~= before + seq![found]
                                    + rest);
                            },
                            Err(_) => {},
                        }
                    }
                    signatures.push(slot);
                    position = next;
                },
            }
            i += 1;
        }
        if position != bytes.len() {
            return Err(FormatError::TrailingBytes);
        }
        proof {
            assert(bytes@.skip(position as int) =~= Seq::<u8>::empty());
            assert(slot_views(signatures@) + Seq::<SlotView>::empty() =~= slot_views(signatures@));
            wire::lemma_encode_decode(bytes@);
        }
        Ok(GungnirSignature { version: VERSION, hash_algorithm, signatures })
    }
}

} // verus!
