use gungnir::engine::{
    classify, evaluate, sign, sign_digest, verify, verify_digest, Policy, Rejection, SlotOutcome,
    SlotStatus, Verdict,
};
use gungnir::error::Error;
use gungnir::format::{GungnirSignature, HashAlgorithm, SignatureAlgorithm, SignatureSlot};
use gungnir::hasher::{digest, Hasher};
use gungnir::keypair::Keypair;

fn outcome(algorithm: SignatureAlgorithm, status: SlotStatus) -> SlotOutcome {
    SlotOutcome { algorithm, status }
}

fn hybrid_keys() -> Vec<Keypair> {
    vec![Keypair::new(SignatureAlgorithm::Ed25519), Keypair::new(SignatureAlgorithm::Falcon512)]
}

fn registry_of(keypairs: &[Keypair]) -> Vec<Keypair> {
    keypairs.iter().map(|keypair| keypair.public_only()).collect()
}

fn require_hybrid() -> Policy {
    Policy::RequireAll(vec![SignatureAlgorithm::Ed25519, SignatureAlgorithm::Falcon512])
}

fn statuses(outcomes: &[SlotOutcome]) -> Vec<SlotStatus> {
    outcomes.iter().map(|outcome| outcome.status).collect()
}

fn without_slot(container: &GungnirSignature, index: usize) -> GungnirSignature {
    let mut slots: Vec<SignatureSlot> = container.signatures().clone();
    slots.remove(index);
    GungnirSignature::new(container.hash_algorithm(), slots).unwrap()
}

const ED: SignatureAlgorithm = SignatureAlgorithm::Ed25519;
const F512: SignatureAlgorithm = SignatureAlgorithm::Falcon512;
const F1024: SignatureAlgorithm = SignatureAlgorithm::Falcon1024;

#[test]
fn require_all_accepts_when_every_mandatory_algorithm_is_valid() {
    let outcomes = [outcome(ED, SlotStatus::Valid), outcome(F512, SlotStatus::Valid)];
    assert_eq!(evaluate(&require_hybrid(), &outcomes), Verdict::Accepted);
    let reordered = [outcome(F512, SlotStatus::Valid), outcome(ED, SlotStatus::Valid)];
    assert_eq!(evaluate(&require_hybrid(), &reordered), Verdict::Accepted);
}

#[test]
fn require_all_tolerates_unknown_and_extra_slots() {
    let outcomes = [
        outcome(F1024, SlotStatus::Unknown),
        outcome(ED, SlotStatus::Valid),
        outcome(ED, SlotStatus::Unknown),
        outcome(F512, SlotStatus::Valid),
        outcome(F1024, SlotStatus::Valid),
    ];
    assert_eq!(evaluate(&require_hybrid(), &outcomes), Verdict::Accepted);
}

#[test]
fn require_all_rejects_a_missing_algorithm() {
    let stripped = [outcome(ED, SlotStatus::Valid)];
    assert_eq!(
        evaluate(&require_hybrid(), &stripped),
        Verdict::Rejected(Rejection::MissingAlgorithm(F512))
    );
    let unknown = [outcome(ED, SlotStatus::Valid), outcome(F512, SlotStatus::Unknown)];
    assert_eq!(
        evaluate(&require_hybrid(), &unknown),
        Verdict::Rejected(Rejection::MissingAlgorithm(F512))
    );
    assert_eq!(
        evaluate(&require_hybrid(), &[]),
        Verdict::Rejected(Rejection::MissingAlgorithm(ED))
    );
    let only_falcon = [outcome(F512, SlotStatus::Valid)];
    assert_eq!(
        evaluate(&require_hybrid(), &only_falcon),
        Verdict::Rejected(Rejection::MissingAlgorithm(ED))
    );
}

#[test]
fn require_all_rejects_any_invalid_slot() {
    let outcomes = [
        outcome(ED, SlotStatus::Valid),
        outcome(F512, SlotStatus::Valid),
        outcome(F1024, SlotStatus::Invalid),
        outcome(ED, SlotStatus::Invalid),
    ];
    assert_eq!(
        evaluate(&require_hybrid(), &outcomes),
        Verdict::Rejected(Rejection::InvalidSignature(2))
    );
    let invalid_and_missing = [outcome(ED, SlotStatus::Invalid)];
    assert_eq!(
        evaluate(&require_hybrid(), &invalid_and_missing),
        Verdict::Rejected(Rejection::InvalidSignature(0))
    );
}

#[test]
fn require_all_of_nothing_accepts_unless_a_slot_is_invalid() {
    let nothing = Policy::RequireAll(Vec::new());
    assert_eq!(evaluate(&nothing, &[]), Verdict::Accepted);
    assert_eq!(evaluate(&nothing, &[outcome(ED, SlotStatus::Unknown)]), Verdict::Accepted);
    assert_eq!(
        evaluate(&nothing, &[outcome(ED, SlotStatus::Invalid)]),
        Verdict::Rejected(Rejection::InvalidSignature(0))
    );
}

#[test]
fn require_any_accepts_one_valid_slot() {
    let outcomes = [
        outcome(ED, SlotStatus::Invalid),
        outcome(F512, SlotStatus::Unknown),
        outcome(F1024, SlotStatus::Valid),
    ];
    assert_eq!(evaluate(&Policy::RequireAny, &outcomes), Verdict::Accepted);
    assert_eq!(evaluate(&Policy::RequireAny, &[outcome(ED, SlotStatus::Valid)]), Verdict::Accepted);
}

#[test]
fn require_any_rejects_with_the_reason() {
    assert_eq!(evaluate(&Policy::RequireAny, &[]), Verdict::Rejected(Rejection::NoSignatures));
    let unknown = [outcome(ED, SlotStatus::Unknown), outcome(F512, SlotStatus::Unknown)];
    assert_eq!(evaluate(&Policy::RequireAny, &unknown), Verdict::Rejected(Rejection::UnknownKey(0)));
    let invalid = [
        outcome(ED, SlotStatus::Unknown),
        outcome(F512, SlotStatus::Invalid),
        outcome(F1024, SlotStatus::Invalid),
    ];
    assert_eq!(
        evaluate(&Policy::RequireAny, &invalid),
        Verdict::Rejected(Rejection::InvalidSignature(1))
    );
}

#[test]
fn default_policy_requires_every_signing_algorithm() {
    let keypairs = vec![
        Keypair::new(ED).public_only(),
        Keypair::new(F512).public_only(),
        Keypair::new(ED).public_only(),
    ];
    match Policy::require_all_of(&keypairs) {
        Policy::RequireAll(mandatory) => assert_eq!(mandatory, vec![ED, F512, ED]),
        Policy::RequireAny => panic!("the default policy must not be the weaker one"),
    }
    match Policy::require_all_of(&[]) {
        Policy::RequireAll(mandatory) => assert!(mandatory.is_empty()),
        Policy::RequireAny => panic!("the default policy must not be the weaker one"),
    }
}

#[test]
fn signing_fills_one_slot_for_each_keypair_in_order() {
    let keypairs = vec![Keypair::new(F1024), Keypair::new(ED), Keypair::new(F512)];
    let content = b"executable content";
    for hash in [HashAlgorithm::Blake3, HashAlgorithm::Sha2_512, HashAlgorithm::Sha3_384] {
        let container = sign(content, hash, &keypairs).unwrap();
        assert_eq!(container.version(), 1);
        assert_eq!(container.hash_algorithm(), hash);
        assert_eq!(container.signature_amt(), 3);
        let content_digest = digest(hash, content);
        for (slot, keypair) in container.signatures().iter().zip(&keypairs) {
            assert_eq!(slot.algorithm, keypair.algorithm());
            assert_eq!(slot.public_key_digest, keypair.public_key_digest());
            assert!(matches!(keypair.verify(&content_digest, &slot.signature), Ok(true)));
            assert!(matches!(keypair.verify(content, &slot.signature), Ok(false)));
        }
    }
}

#[test]
fn signing_a_digest_is_signing_the_content() {
    let keypairs = vec![Keypair::new(ED)];
    let content = b"executable content";
    let from_content = sign(content, HashAlgorithm::Sha3_512, &keypairs).unwrap();
    let content_digest = digest(HashAlgorithm::Sha3_512, content);
    let from_digest = sign_digest(&content_digest, HashAlgorithm::Sha3_512, &keypairs).unwrap();
    assert_eq!(from_content.serialize(), from_digest.serialize());
}

#[test]
fn signing_with_no_keypairs_gives_an_empty_container() {
    let container = sign(b"content", HashAlgorithm::Blake3, &[]).unwrap();
    assert_eq!(container.signature_amt(), 0);
    let result = verify(b"content", &container, &[], &Policy::RequireAny);
    assert_eq!(result.verdict, Verdict::Rejected(Rejection::NoSignatures));
    assert!(result.outcomes.is_empty());
}

#[test]
fn signing_is_all_or_nothing() {
    let keypairs =
        vec![Keypair::new(ED), Keypair::new(F512).public_only(), Keypair::new(F1024)];
    assert!(matches!(sign(b"content", HashAlgorithm::Blake3, &keypairs), Err(Error::NoPrivateKey)));
    assert!(matches!(
        sign_digest(&[0u8; 32], HashAlgorithm::Blake3, &keypairs),
        Err(Error::NoPrivateKey)
    ));
    let last_cannot = vec![Keypair::new(ED), Keypair::new(ED).public_only()];
    assert!(matches!(
        sign(b"content", HashAlgorithm::Blake3, &last_cannot),
        Err(Error::NoPrivateKey)
    ));
}

#[test]
fn missing_private_half_is_found_before_any_key_signs() {
    let keypairs = vec![
        Keypair::new(F512),
        Keypair::new(F1024),
        Keypair::new(ED),
        Keypair::new(F512).public_only(),
    ];
    for _ in 0..3 {
        assert!(matches!(
            sign(b"content", HashAlgorithm::Sha2_384, &keypairs),
            Err(Error::NoPrivateKey)
        ));
    }
}

#[test]
fn ed25519_keypairs_always_sign() {
    let keypairs: Vec<Keypair> = (0..5).map(|_| Keypair::new(ED)).collect();
    for hash in [HashAlgorithm::Blake3, HashAlgorithm::Sha2_384, HashAlgorithm::Sha3_512] {
        let container = sign(b"content", hash, &keypairs).unwrap();
        assert_eq!(container.signature_amt(), 5);
        for slot in container.signatures() {
            assert_eq!(slot.signature.len(), 64);
        }
    }
}

#[test]
fn signing_with_256_keypairs_fails_with_capacity() {
    let keypairs: Vec<Keypair> = (0..256).map(|_| Keypair::new(ED)).collect();
    assert!(matches!(sign(b"content", HashAlgorithm::Blake3, &keypairs), Err(Error::Capacity)));
    assert!(matches!(
        sign_digest(&[0u8; 32], HashAlgorithm::Blake3, &keypairs),
        Err(Error::Capacity)
    ));
    let container = sign(b"content", HashAlgorithm::Blake3, &keypairs[..255]).unwrap();
    assert_eq!(container.signature_amt(), 255);
}

#[test]
fn capacity_is_checked_before_any_key_is_used() {
    let keypairs: Vec<Keypair> = (0..256).map(|_| Keypair::new(ED).public_only()).collect();
    assert!(matches!(sign(b"content", HashAlgorithm::Blake3, &keypairs), Err(Error::Capacity)));
    assert!(matches!(
        sign_digest(&[0u8; 32], HashAlgorithm::Blake3, &keypairs),
        Err(Error::Capacity)
    ));
    assert!(matches!(
        sign(b"content", HashAlgorithm::Blake3, &keypairs[..255]),
        Err(Error::NoPrivateKey)
    ));
}

#[test]
fn hybrid_container_verifies_under_require_all() {
    let keypairs = hybrid_keys();
    let registry = registry_of(&keypairs);
    let content = b"executable content";
    let container = sign(content, HashAlgorithm::Blake3, &keypairs).unwrap();
    let result = verify(content, &container, &registry, &require_hybrid());
    assert_eq!(result.verdict, Verdict::Accepted);
    assert_eq!(
        result.outcomes,
        vec![outcome(ED, SlotStatus::Valid), outcome(F512, SlotStatus::Valid)]
    );
    let by_default = verify(content, &container, &registry, &Policy::require_all_of(&keypairs));
    assert_eq!(by_default.verdict, Verdict::Accepted);
}

#[test]
fn stripped_container_fails_require_all_and_passes_require_any() {
    let keypairs = hybrid_keys();
    let registry = registry_of(&keypairs);
    let content = b"executable content";
    let container = sign(content, HashAlgorithm::Blake3, &keypairs).unwrap();
    assert_eq!(
        verify(content, &container, &registry, &require_hybrid()).verdict,
        Verdict::Accepted
    );

    let stripped = without_slot(&container, 1);
    let strict = verify(content, &stripped, &registry, &require_hybrid());
    assert_eq!(strict.verdict, Verdict::Rejected(Rejection::MissingAlgorithm(F512)));
    assert_eq!(strict.outcomes, vec![outcome(ED, SlotStatus::Valid)]);

    let lenient = verify(content, &stripped, &registry, &Policy::RequireAny);
    assert_eq!(lenient.verdict, Verdict::Accepted);

    let reparsed = GungnirSignature::parse(&stripped.serialize()).unwrap();
    assert_eq!(
        verify(content, &reparsed, &registry, &require_hybrid()).verdict,
        Verdict::Rejected(Rejection::MissingAlgorithm(F512))
    );
}

#[test]
fn verification_survives_the_wire() {
    let keypairs = vec![Keypair::new(ED), Keypair::new(F512), Keypair::new(F1024)];
    let registry = registry_of(&keypairs);
    let content = b"executable content";
    let bytes = sign(content, HashAlgorithm::Sha2_384, &keypairs).unwrap().serialize();
    let container = GungnirSignature::parse(&bytes).unwrap();
    let policy = Policy::require_all_of(&keypairs);
    let result = verify(content, &container, &registry, &policy);
    assert_eq!(result.verdict, Verdict::Accepted);
    assert_eq!(statuses(&result.outcomes), vec![SlotStatus::Valid; 3]);
}

#[test]
fn slot_of_an_unregistered_key_is_unknown() {
    let keypairs = hybrid_keys();
    let content = b"executable content";
    let container = sign(content, HashAlgorithm::Blake3, &keypairs).unwrap();
    let only_ed25519 = vec![keypairs[0].public_only()];
    let result = verify(content, &container, &only_ed25519, &require_hybrid());
    assert_eq!(statuses(&result.outcomes), vec![SlotStatus::Valid, SlotStatus::Unknown]);
    assert_eq!(result.verdict, Verdict::Rejected(Rejection::MissingAlgorithm(F512)));

    let strangers = registry_of(&hybrid_keys());
    let result = verify(content, &container, &strangers, &Policy::RequireAny);
    assert_eq!(statuses(&result.outcomes), vec![SlotStatus::Unknown, SlotStatus::Unknown]);
    assert_eq!(result.verdict, Verdict::Rejected(Rejection::UnknownKey(0)));

    let result = verify(content, &container, &[], &Policy::RequireAny);
    assert_eq!(result.verdict, Verdict::Rejected(Rejection::UnknownKey(0)));
}

#[test]
fn registry_order_does_not_matter() {
    let keypairs = hybrid_keys();
    let content = b"executable content";
    let container = sign(content, HashAlgorithm::Blake3, &keypairs).unwrap();
    let registry = vec![
        Keypair::new(F1024).public_only(),
        keypairs[1].public_only(),
        Keypair::new(ED).public_only(),
        keypairs[0].public_only(),
    ];
    let result = verify(content, &container, &registry, &require_hybrid());
    assert_eq!(result.verdict, Verdict::Accepted);
}

#[test]
fn tampered_signature_is_invalid() {
    let keypairs = hybrid_keys();
    let registry = registry_of(&keypairs);
    let content = b"executable content";
    let container = sign(content, HashAlgorithm::Blake3, &keypairs).unwrap();
    let mut slots = container.signatures().clone();
    slots[0].signature[5] ^= 0x10;
    let tampered = GungnirSignature::new(HashAlgorithm::Blake3, slots).unwrap();
    let result = verify(content, &tampered, &registry, &require_hybrid());
    assert_eq!(statuses(&result.outcomes), vec![SlotStatus::Invalid, SlotStatus::Valid]);
    assert_eq!(result.verdict, Verdict::Rejected(Rejection::InvalidSignature(0)));
    let lenient = verify(content, &tampered, &registry, &Policy::RequireAny);
    assert_eq!(lenient.verdict, Verdict::Accepted);
}

#[test]
fn malformed_signature_is_invalid_and_raises_nothing() {
    let keypairs = hybrid_keys();
    let registry = registry_of(&keypairs);
    let content = b"executable content";
    let container = sign(content, HashAlgorithm::Blake3, &keypairs).unwrap();
    let mut slots = container.signatures().clone();
    slots[0].signature.truncate(10);
    slots[1].signature = vec![0u8; 5000];
    let malformed = GungnirSignature::new(HashAlgorithm::Blake3, slots).unwrap();
    let result = verify(content, &malformed, &registry, &Policy::RequireAny);
    assert_eq!(statuses(&result.outcomes), vec![SlotStatus::Invalid, SlotStatus::Invalid]);
    assert_eq!(result.verdict, Verdict::Rejected(Rejection::InvalidSignature(0)));
}

#[test]
fn slot_that_names_another_algorithm_than_its_key_is_invalid() {
    let keypairs = hybrid_keys();
    let registry = registry_of(&keypairs);
    let content = b"executable content";
    let container = sign(content, HashAlgorithm::Blake3, &keypairs).unwrap();
    let mut slots = container.signatures().clone();
    slots[0].algorithm = F512;
    let relabelled = GungnirSignature::new(HashAlgorithm::Blake3, slots).unwrap();
    let result = verify(content, &relabelled, &registry, &Policy::RequireAny);
    assert_eq!(
        result.outcomes,
        vec![outcome(F512, SlotStatus::Invalid), outcome(F512, SlotStatus::Valid)]
    );
}

#[test]
fn classify_tells_valid_invalid_and_unknown_apart() {
    let signer = Keypair::new(ED);
    let registry = vec![Keypair::new(F512).public_only(), signer.public_only()];
    let content_digest = digest(HashAlgorithm::Blake3, b"content");
    let slot = signer.sign(&content_digest).unwrap();
    assert_eq!(classify(&registry, &content_digest, &slot), SlotStatus::Valid);
    assert_eq!(classify(&registry, b"another digest", &slot), SlotStatus::Invalid);
    assert_eq!(classify(&registry[..1], &content_digest, &slot), SlotStatus::Unknown);
    assert_eq!(classify(&[], &content_digest, &slot), SlotStatus::Unknown);
    let mut renamed = slot.clone();
    renamed.public_key_digest[0] ^= 1;
    assert_eq!(classify(&registry, &content_digest, &renamed), SlotStatus::Unknown);
}

#[test]
fn same_content_under_two_hash_algorithms_gives_different_signatures() {
    let keypairs = vec![Keypair::new(ED)];
    let registry = registry_of(&keypairs);
    let content = b"executable content";
    let with_blake3 = sign(content, HashAlgorithm::Blake3, &keypairs).unwrap();
    let with_sha3 = sign(content, HashAlgorithm::Sha3_512, &keypairs).unwrap();
    assert_ne!(with_blake3.signatures()[0].signature, with_sha3.signatures()[0].signature);
    assert_eq!(
        with_blake3.signatures()[0].public_key_digest,
        with_sha3.signatures()[0].public_key_digest
    );

    let policy = Policy::require_all_of(&keypairs);
    assert_eq!(verify(content, &with_blake3, &registry, &policy).verdict, Verdict::Accepted);
    assert_eq!(verify(content, &with_sha3, &registry, &policy).verdict, Verdict::Accepted);

    let blake3_digest = digest(HashAlgorithm::Blake3, content);
    let sha3_digest = digest(HashAlgorithm::Sha3_512, content);
    assert_eq!(
        verify_digest(&blake3_digest, &with_blake3, &registry, &policy).verdict,
        Verdict::Accepted
    );
    assert_eq!(
        verify_digest(&sha3_digest, &with_blake3, &registry, &policy).verdict,
        Verdict::Rejected(Rejection::InvalidSignature(0))
    );
    assert_eq!(
        verify_digest(&blake3_digest, &with_sha3, &registry, &policy).verdict,
        Verdict::Rejected(Rejection::InvalidSignature(0))
    );
    assert_eq!(
        verify_digest(&sha3_digest, &with_sha3, &registry, &policy).verdict,
        Verdict::Accepted
    );

    let relabelled =
        GungnirSignature::new(HashAlgorithm::Sha3_512, with_blake3.signatures().clone()).unwrap();
    assert_eq!(
        verify(content, &relabelled, &registry, &policy).verdict,
        Verdict::Rejected(Rejection::InvalidSignature(0))
    );
}

#[test]
fn ten_mebibytes_sign_and_verify_and_one_flipped_byte_invalidates_every_slot() {
    let keypairs = hybrid_keys();
    let registry = registry_of(&keypairs);
    let mut content: Vec<u8> = (0..10 * 1024 * 1024u32).map(|i| (i.wrapping_mul(31) >> 3) as u8).collect();

    let mut hasher = Hasher::from(HashAlgorithm::Blake3);
    for chunk in content.chunks(64 * 1024) {
        hasher.update(chunk);
    }
    let streamed = hasher.finish();
    let container = sign_digest(&streamed, HashAlgorithm::Blake3, &keypairs).unwrap();

    let result = verify(&content, &container, &registry, &require_hybrid());
    assert_eq!(result.verdict, Verdict::Accepted);
    assert_eq!(statuses(&result.outcomes), vec![SlotStatus::Valid, SlotStatus::Valid]);

    for position in [0usize, 4_000_000, 10 * 1024 * 1024 - 1] {
        content[position] ^= 0x01;
        let result = verify(&content, &container, &registry, &require_hybrid());
        assert_eq!(statuses(&result.outcomes), vec![SlotStatus::Invalid, SlotStatus::Invalid]);
        assert_eq!(result.verdict, Verdict::Rejected(Rejection::InvalidSignature(0)));
        let lenient = verify(&content, &container, &registry, &Policy::RequireAny);
        assert_eq!(lenient.verdict, Verdict::Rejected(Rejection::InvalidSignature(0)));
        content[position] ^= 0x01;
    }
    assert_eq!(
        verify(&content, &container, &registry, &require_hybrid()).verdict,
        Verdict::Accepted
    );
}
