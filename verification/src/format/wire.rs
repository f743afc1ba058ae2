//! The byte layout of a signature container, as mathematics: what a
//! container encodes to, what bytes decode to, and that the two undo each
//! other.
//!
//! ```text
//! magic      8 bytes   "GUNGNIR" and 0x42
//! version    1 byte    1
//! hash       1 byte    id of the hash algorithm
//! count      1 byte    number of slots, 0 to 255
//! slots      count times:
//!   algorithm  1 byte    id of the signature algorithm
//!   key digest 32 bytes
//!   length     8 bytes   length of the signature, little-endian
//!   signature  length bytes
//! ```

use crate::error::FormatError;
use crate::format::algorithm::{HashAlgorithm, SignatureAlgorithm};
use crate::format::signature::SlotView;
use vstd::bytes::{
    lemma_auto_spec_u64_to_from_le_bytes, spec_u64_from_le_bytes, spec_u64_to_le_bytes,
};
use vstd::prelude::*;

verus! {

/// The one version of the layout that this library writes and reads.
pub const VERSION: u8 = 1;

/// The most slots that the one-byte count can announce.
pub const MAX_SIGNATURES: usize = 255;

/// The length of what precedes the slots: magic, version, hash and count.
pub const HEADER_LEN: usize = 11;

/// The length of what precedes a slot's signature: algorithm, key digest and
/// length.
pub const SLOT_HEADER_LEN: usize = 41;

/// The marker that every container starts with: `GUNGNIR` in ASCII, then 0x42.
pub open spec fn magic() -> Seq<u8> {
    seq![0x47u8, 0x55u8, 0x4eu8, 0x47u8, 0x4eu8, 0x49u8, 0x52u8, 0x42u8]
}

/// A container as plain mathematical data.
pub struct ContainerView {
    pub version: u8,
    pub hash_algorithm: HashAlgorithm,
    pub slots: Seq<SlotView>,
}

impl ContainerView {
    /// The containers that the layout can carry: of the current version,
    /// with at most 255 slots, each with a 32-byte key digest and a signature
    /// whose length fits the length prefix.
    pub open spec fn wf(self) -> bool {
        &&& self.version == VERSION
        &&& self.slots.len() <= MAX_SIGNATURES
        &&& forall|i: int| 0 <= i < self.slots.len() ==> (#[trigger] self.slots[i]).wf()
    }
}

/// The bytes of one slot.
pub open spec fn encode_slot(slot: SlotView) -> Seq<u8> {
    seq![slot.algorithm.spec_id()] + slot.public_key_digest + spec_u64_to_le_bytes(
        slot.signature.len() as u64,
    ) + slot.signature
}

/// The bytes of a run of slots, one after the other.
pub open spec fn encode_slots(slots: Seq<SlotView>) -> Seq<u8>
    decreases slots.len(),
{
    if slots.len() == 0 {
        Seq::empty()
    } else {
        encode_slots(slots.drop_last()) + encode_slot(slots.last())
    }
}

/// The bytes of a container.
pub open spec fn encode(container: ContainerView) -> Seq<u8> {
    magic() + seq![
        container.version,
        container.hash_algorithm.spec_id(),
        container.slots.len() as u8,
    ] + encode_slots(container.slots)
}

/// Reads one slot from the front of `bytes`: the slot and the number of
/// bytes it takes, or why there is none. An unknown algorithm id is reported
/// before a short input is.
pub open spec fn decode_slot(bytes: Seq<u8>) -> Result<(SlotView, int), FormatError> {
    if bytes.len() < 1 {
        Err(FormatError::Truncated)
    } else {
        match SignatureAlgorithm::spec_from_id(bytes[0]) {
            None => Err(FormatError::UnknownSignatureAlgorithm(bytes[0])),
            Some(algorithm) => {
                if bytes.len() < SLOT_HEADER_LEN {
                    Err(FormatError::Truncated)
                } else {
                    let length = spec_u64_from_le_bytes(bytes.subrange(33, 41)) as int;
                    if bytes.len() - SLOT_HEADER_LEN < length {
                        Err(FormatError::Truncated)
                    } else {
                        Ok(
                            (
                                SlotView {
                                    algorithm,
                                    public_key_digest: bytes.subrange(1, 33),
                                    signature: bytes.subrange(41, 41 + length),
                                },
                                41 + length,
                            ),
                        )
                    }
                }
            },
        }
    }
}

/// Reads exactly `count` slots from `bytes`, which must hold nothing else.
/// The first slot that cannot be read decides the error.
pub open spec fn decode_slots(bytes: Seq<u8>, count: nat) -> Result<Seq<SlotView>, FormatError>
    decreases count,
{
    if count == 0 {
        if bytes.len() == 0 {
            Ok(Seq::empty())
        } else {
            Err(FormatError::TrailingBytes)
        }
    } else {
        match decode_slot(bytes) {
            Err(error) => Err(error),
            Ok((slot, used)) => match decode_slots(bytes.skip(used), (count - 1) as nat) {
                Err(error) => Err(error),
                Ok(rest) => Ok(seq![slot] + rest),
            },
        }
    }
}

/// Reads a container from `bytes`, all of them, or says why they are none.
/// The checks come in the order of the layout: magic, header length,
/// version, hash algorithm, then slot by slot, then the end of the input.
pub open spec fn decode(bytes: Seq<u8>) -> Result<ContainerView, FormatError> {
    if bytes.len() < 8 || bytes.subrange(0, 8) != magic() {
        Err(FormatError::BadMagic)
    } else if bytes.len() < HEADER_LEN {
        Err(FormatError::Truncated)
    } else if bytes[8] != VERSION {
        Err(FormatError::UnsupportedVersion(bytes[8]))
    } else {
        match HashAlgorithm::spec_from_id(bytes[9]) {
            None => Err(FormatError::UnknownHashAlgorithm(bytes[9])),
            Some(hash_algorithm) => match decode_slots(bytes.skip(11), bytes[10] as nat) {
                Err(error) => Err(error),
                Ok(slots) => Ok(ContainerView { version: VERSION, hash_algorithm, slots }),
            },
        }
    }
}

/// A run of slots encodes to the encoding of its front followed by that of
/// its back.
pub proof fn lemma_encode_slots_concat(front: Seq<SlotView>, back: Seq<SlotView>)
    ensures
        encode_slots(front + back) == encode_slots(front) + encode_slots(back),
    decreases back.len(),
{
    if back.len() == 0 {
        assert(front + back =~= front);
        assert(encode_slots(front) + encode_slots(back) =~= encode_slots(front));
    } else {
        let whole = front + back;
        assert(whole.drop_last() =~= front + back.drop_last());
        assert(whole.last() == back.last());
        lemma_encode_slots_concat(front, back.drop_last());
        assert(encode_slots(whole) =~= encode_slots(front) + encode_slots(back));
    }
}

/// A run of one slot encodes as that slot does.
pub proof fn lemma_encode_single_slot(slot: SlotView)
    ensures
        encode_slots(seq![slot]) == encode_slot(slot),
{
    reveal_with_fuel(encode_slots, 2);
    assert(seq![slot].drop_last() =~= Seq::<SlotView>::empty());
    assert(encode_slots(seq![slot]) =~= encode_slot(slot));
}

/// A slot's encoding, with anything behind it, decodes to the slot and to
/// the length of the encoding.
pub proof fn lemma_decode_encoded_slot(slot: SlotView, tail: Seq<u8>)
    requires
        slot.wf(),
    ensures
        decode_slot(encode_slot(slot) + tail) == Ok::<(SlotView, int), FormatError>(
            (slot, encode_slot(slot).len() as int),
        ),
        encode_slot(slot).len() == SLOT_HEADER_LEN + slot.signature.len(),
{
    lemma_auto_spec_u64_to_from_le_bytes();
    let length = slot.signature.len() as u64;
    let prefix = spec_u64_to_le_bytes(length);
    let encoded = encode_slot(slot);
    let bytes = encoded + tail;
    assert(prefix.len() == 8);
    assert(encoded.len() == 41 + slot.signature.len());
    assert(bytes[0] == slot.algorithm.spec_id());
    assert(bytes.subrange(1, 33) =~= slot.public_key_digest);
    assert(bytes.subrange(33, 41) =~= prefix);
    assert(spec_u64_from_le_bytes(bytes.subrange(33, 41)) == length);
    assert(bytes.subrange(41, 41 + length as int) =~= slot.signature);
}

/// What decodes from the front of `bytes` as a slot is well formed and
/// encodes to the very bytes it was read from.
pub proof fn lemma_encode_decoded_slot(bytes: Seq<u8>)
    requires
        decode_slot(bytes) is Ok,
    ensures
        ({
            let (slot, used) = decode_slot(bytes)->Ok_0;
            &&& slot.wf()
            &&& SLOT_HEADER_LEN <= used <= bytes.len()
            &&& encode_slot(slot) == bytes.take(used)
        }),
{
    lemma_auto_spec_u64_to_from_le_bytes();
    let (slot, used) = decode_slot(bytes)->Ok_0;
    let prefix = bytes.subrange(33, 41);
    let length = spec_u64_from_le_bytes(prefix);
    assert(slot.signature.len() == length);
    assert(spec_u64_to_le_bytes(slot.signature.len() as u64) == prefix);
    assert(encode_slot(slot) =~= bytes.take(used));
}

/// The encoding of well-formed slots decodes to the same slots.
pub proof fn lemma_decode_encoded_slots(slots: Seq<SlotView>)
    requires
        forall|i: int| 0 <= i < slots.len() ==> (#[trigger] slots[i]).wf(),
    ensures
        decode_slots(encode_slots(slots), slots.len()) == Ok::<Seq<SlotView>, FormatError>(slots),
    decreases slots.len(),
{
    if slots.len() == 0 {
        assert(slots =~= Seq::<SlotView>::empty());
    } else {
        let first = slots.first();
        let rest = slots.drop_first();
        assert(slots =~= seq![first] + rest);
        lemma_encode_slots_concat(seq![first], rest);
        lemma_encode_single_slot(first);
        let bytes = encode_slots(slots);
        assert(bytes == encode_slot(first) + encode_slots(rest));
        lemma_decode_encoded_slot(first, encode_slots(rest));
        let used = encode_slot(first).len() as int;
        assert(bytes.skip(used) =~= encode_slots(rest));
        lemma_decode_encoded_slots(rest);
        assert(decode_slot(bytes) == Ok::<(SlotView, int), FormatError>((first, used)));
        assert(decode_slots(bytes.skip(used), (slots.len() - 1) as nat) == Ok::<
            Seq<SlotView>,
            FormatError,
        >(rest));
    }
}

/// Slots that decode from `bytes` are as many as were asked for, are well
/// formed, and encode to `bytes`.
pub proof fn lemma_encode_decoded_slots(bytes: Seq<u8>, count: nat)
    requires
        decode_slots(bytes, count) is Ok,
    ensures
        ({
            let slots = decode_slots(bytes, count)->Ok_0;
            &&& slots.len() == count
            &&& forall|i: int| 0 <= i < slots.len() ==> (#[trigger] slots[i]).wf()
            &&& encode_slots(slots) == bytes
        }),
    decreases count,
{
    if count == 0 {
        assert(bytes =~= Seq::<u8>::empty());
    } else {
        let (slot, used) = decode_slot(bytes)->Ok_0;
        let rest = decode_slots(bytes.skip(used), (count - 1) as nat)->Ok_0;
        let slots = seq![slot] + rest;
        lemma_encode_decoded_slot(bytes);
        lemma_encode_decoded_slots(bytes.skip(used), (count - 1) as nat);
        lemma_encode_slots_concat(seq![slot], rest);
        lemma_encode_single_slot(slot);
        assert(bytes =~= bytes.take(used) + bytes.skip(used));
        assert forall|i: int| 0 <= i < slots.len() implies (#[trigger] slots[i]).wf() by {
            if i > 0 {
                assert(slots[i] == rest[i - 1]);
            }
        }
    }
}

/// Decoding undoes encoding: a well-formed container's bytes decode to that
/// container.
pub proof fn lemma_decode_encode(container: ContainerView)
    requires
        container.wf(),
    ensures
        decode(encode(container)) == Ok::<ContainerView, FormatError>(container),
{
    let header = seq![
        container.version,
        container.hash_algorithm.spec_id(),
        container.slots.len() as u8,
    ];
    let bytes = encode(container);
    assert(bytes.subrange(0, 8) =~= magic());
    assert(bytes[8] == container.version);
    assert(bytes[9] == container.hash_algorithm.spec_id());
    assert(bytes[10] == container.slots.len() as u8);
    assert(bytes.skip(11) =~= encode_slots(container.slots));
    lemma_decode_encoded_slots(container.slots);
}

/// Encoding undoes decoding: bytes that decode to a container are the bytes
/// of that container, and the container is well formed.
pub proof fn lemma_encode_decode(bytes: Seq<u8>)
    requires
        decode(bytes) is Ok,
    ensures
        decode(bytes)->Ok_0.wf(),
        encode(decode(bytes)->Ok_0) == bytes,
{
    let container = decode(bytes)->Ok_0;
    lemma_encode_decoded_slots(bytes.skip(11), bytes[10] as nat);
    HashAlgorithm::lemma_id_roundtrip(container.hash_algorithm, bytes[9]);
    assert(bytes =~= bytes.subrange(0, 8) + seq![bytes[8], bytes[9], bytes[10]] + bytes.skip(11));
}

/// Two well-formed containers with the same bytes are the same container.
pub proof fn lemma_encode_injective(left: ContainerView, right: ContainerView)
    requires
        left.wf(),
        right.wf(),
        encode(left) == encode(right),
    ensures
        left == right,
{
    lemma_decode_encode(left);
    lemma_decode_encode(right);
}

} // verus!
