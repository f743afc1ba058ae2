use crate::error::Error;
use crate::format::algorithm::{HashAlgorithm, SignatureAlgorithm};
use crate::format::signature::{SignatureSlot, SlotView};
use crate::format::wire::{ContainerView, MAX_SIGNATURES, VERSION};
use crate::format::{slot_views, GungnirSignature};
use crate::hasher::{digest, spec_digest};
use crate::keypair::{bytes_equal, no_signature_text, signature_well_formed, Keypair};
use vstd::prelude::*;

verus! {

/// What verification found of one slot.
#[derive(Debug, Clone, Copy, PartialEq, Eq, Structural)]
pub enum SlotStatus {
    /// The registry holds the key, and the signature matches the content.
    Valid,
    /// The registry holds the key, and the signature does not stand: it does
    /// not match, it is malformed, or it names another algorithm than the key.
    Invalid,
    /// The registry does not hold the key.
    Unknown,
}

/// One slot's algorithm and what verification found of the slot.
#[derive(Debug, Clone, Copy, PartialEq, Eq, Structural)]
pub struct SlotOutcome {
    pub algorithm: SignatureAlgorithm,
    pub status: SlotStatus,
}

/// How the slots' outcomes combine into one answer.
#[derive(Debug, Clone)]
pub enum Policy {
    /// Every listed algorithm must have a valid slot, and no slot of a known
    /// key may be invalid. A container from which a signature was stripped
    /// fails: what is demanded does not depend on what the container holds.
    RequireAll(Vec<SignatureAlgorithm>),
    /// One valid slot is enough. This is weaker, and is for migration only.
    RequireAny,
}

/// A policy as plain mathematical data.
pub enum PolicyView {
    RequireAll(Seq<SignatureAlgorithm>),
    RequireAny,
}

impl View for Policy {
    type V = PolicyView;

    open spec fn view(&self) -> PolicyView {
        match self {
            Policy::RequireAll(mandatory) => PolicyView::RequireAll(mandatory@),
            Policy::RequireAny => PolicyView::RequireAny,
        }
    }
}

/// Why verification failed.
#[derive(Debug, Clone, Copy, PartialEq, Eq, Structural)]
pub enum Rejection {
    /// The slot at this index is invalid; it is the first such slot.
    InvalidSignature(usize),
    /// This mandatory algorithm has no valid slot; it is the first such
    /// algorithm of the policy.
    MissingAlgorithm(SignatureAlgorithm),
    /// No slot is valid or invalid; the slot at this index, the first, is of
    /// a key that the registry does not hold.
    UnknownKey(usize),
    /// The container holds no slot.
    NoSignatures,
}

/// The answer of verification.
#[derive(Debug, Clone, Copy, PartialEq, Eq, Structural)]
pub enum Verdict {
    Accepted,
    Rejected(Rejection),
}

/// What verification found: slot by slot, and in all.
#[derive(Debug, Clone)]
pub struct VerificationResult {
    /// The outcomes, one for each slot of the container, in slot order.
    pub outcomes: Vec<SlotOutcome>,
    pub verdict: Verdict,
}

/// Whether some slot of the given algorithm is valid.
pub open spec fn has_valid(outcomes: Seq<SlotOutcome>, algorithm: SignatureAlgorithm) -> bool {
    exists|i: int|
        0 <= i < outcomes.len() && (#[trigger] outcomes[i]).status == SlotStatus::Valid
            && outcomes[i].algorithm == algorithm
}

/// Whether some slot has the given status.
pub open spec fn has_status(outcomes: Seq<SlotOutcome>, status: SlotStatus) -> bool {
    exists|i: int| 0 <= i < outcomes.len() && (#[trigger] outcomes[i]).status == status
}

/// Whether every one of the algorithms has a valid slot.
pub open spec fn all_have_valid(outcomes: Seq<SlotOutcome>, algorithms: Seq<SignatureAlgorithm>) -> bool {
    forall|j: int| 0 <= j < algorithms.len() ==> has_valid(outcomes, #[trigger] algorithms[j])
}

/// Whether the outcomes satisfy the policy.
pub open spec fn accepts(policy: PolicyView, outcomes: Seq<SlotOutcome>) -> bool {
    match policy {
        PolicyView::RequireAll(mandatory) => !has_status(outcomes, SlotStatus::Invalid)
            && all_have_valid(outcomes, mandatory),
        PolicyView::RequireAny => has_status(outcomes, SlotStatus::Valid),
    }
}

/// The index of the first slot with the given status.
pub open spec fn first_with_status(outcomes: Seq<SlotOutcome>, status: SlotStatus) -> Option<int>
    decreases outcomes.len(),
{
    if outcomes.len() == 0 {
        None
    } else {
        match first_with_status(outcomes.drop_last(), status) {
            Some(found) => Some(found),
            None => if outcomes.last().status == status {
                Some(outcomes.len() - 1)
            } else {
                None
            },
        }
    }
}

/// The index of the first mandatory algorithm that has no valid slot.
pub open spec fn first_missing(mandatory: Seq<SignatureAlgorithm>, outcomes: Seq<SlotOutcome>) -> Option<int>
    decreases mandatory.len(),
{
    if mandatory.len() == 0 {
        None
    } else {
        match first_missing(mandatory.drop_last(), outcomes) {
            Some(found) => Some(found),
            None => if !has_valid(outcomes, mandatory.last()) {
                Some(mandatory.len() - 1)
            } else {
                None
            },
        }
    }
}

/// `first_with_status` gives a slot with the status before which no slot
/// has it, and gives none only where no slot has it.
pub proof fn lemma_first_with_status(outcomes: Seq<SlotOutcome>, status: SlotStatus)
    ensures
        match first_with_status(outcomes, status) {
            Some(found) => 0 <= found < outcomes.len() && outcomes[found].status == status
                && forall|j: int| 0 <= j < found ==> (#[trigger] outcomes[j]).status != status,
            None => forall|j: int|
                0 <= j < outcomes.len() ==> (#[trigger] outcomes[j]).status != status,
        },
    decreases outcomes.len(),
{
    if outcomes.len() > 0 {
        let front = outcomes.drop_last();
        lemma_first_with_status(front, status);
        assert(forall|j: int| 0 <= j < front.len() ==> front[j] == outcomes[j]);
    }
}

/// `first_missing` gives a mandatory algorithm without a valid slot before
/// which every algorithm has one, and gives none only where all have one.
pub proof fn lemma_first_missing(mandatory: Seq<SignatureAlgorithm>, outcomes: Seq<SlotOutcome>)
    ensures
        match first_missing(mandatory, outcomes) {
            Some(found) => 0 <= found < mandatory.len() && !has_valid(outcomes, mandatory[found])
                && forall|j: int| 0 <= j < found ==> has_valid(outcomes, #[trigger] mandatory[j]),
            None => forall|j: int|
                0 <= j < mandatory.len() ==> has_valid(outcomes, #[trigger] mandatory[j]),
        },
    decreases mandatory.len(),
{
    if mandatory.len() > 0 {
        let front = mandatory.drop_last();
        lemma_first_missing(front, outcomes);
        assert(forall|j: int| 0 <= j < front.len() ==> front[j] == mandatory[j]);
    }
}

/// The verdict on the outcomes under the policy, with the reason where it
/// rejects. Under `RequireAll` an invalid slot is reported before a missing
/// algorithm. Under `RequireAny` without a valid slot, an invalid slot is
/// reported before an unknown key.
pub open spec fn spec_evaluate(policy: PolicyView, outcomes: Seq<SlotOutcome>) -> Verdict {
    match policy {
        PolicyView::RequireAll(mandatory) => match first_with_status(
            outcomes,
            SlotStatus::Invalid,
        ) {
            Some(i) => Verdict::Rejected(Rejection::InvalidSignature(i as usize)),
            None => match first_missing(mandatory, outcomes) {
                Some(j) => Verdict::Rejected(Rejection::MissingAlgorithm(mandatory[j])),
                None => Verdict::Accepted,
            },
        },
        PolicyView::RequireAny => if first_with_status(outcomes, SlotStatus::Valid) is Some {
            Verdict::Accepted
        } else {
            match first_with_status(outcomes, SlotStatus::Invalid) {
                Some(i) => Verdict::Rejected(Rejection::InvalidSignature(i as usize)),
                None => match first_with_status(outcomes, SlotStatus::Unknown) {
                    Some(i) => Verdict::Rejected(Rejection::UnknownKey(i as usize)),
                    None => Verdict::Rejected(Rejection::NoSignatures),
                },
            }
        },
    }
}

/// The verdict is `Accepted` exactly on the outcomes that satisfy the policy.
pub proof fn lemma_evaluate_accepts(policy: PolicyView, outcomes: Seq<SlotOutcome>)
    ensures
        spec_evaluate(policy, outcomes) is Accepted <==> accepts(policy, outcomes),
{
    lemma_first_with_status(outcomes, SlotStatus::Invalid);
    lemma_first_with_status(outcomes, SlotStatus::Valid);
    match policy {
        PolicyView::RequireAll(mandatory) => {
            lemma_first_missing(mandatory, outcomes);
        },
        PolicyView::RequireAny => {},
    }
}

/// Downgrade resistance: under `RequireAll`, outcomes in which a mandatory
/// algorithm has no valid slot are rejected, whatever else they hold. A
/// container from which that algorithm's slot was stripped is such a case.
pub proof fn lemma_require_all_rejects_stripped(
    mandatory: Seq<SignatureAlgorithm>,
    outcomes: Seq<SlotOutcome>,
    algorithm: SignatureAlgorithm,
)
    requires
        mandatory.contains(algorithm),
        !has_valid(outcomes, algorithm),
    ensures
        !accepts(PolicyView::RequireAll(mandatory), outcomes),
        spec_evaluate(PolicyView::RequireAll(mandatory), outcomes) is Rejected,
{
    lemma_evaluate_accepts(PolicyView::RequireAll(mandatory), outcomes);
    let j = choose|j: int| 0 <= j < mandatory.len() && mandatory[j] == algorithm;
    assert(!has_valid(outcomes, mandatory[j]));
}

/// `RequireAny` is the weaker mode: whatever `RequireAll` accepts for at
/// least one mandatory algorithm, `RequireAny` accepts too, and it accepts
/// as soon as one slot is valid, whatever was stripped.
pub proof fn lemma_require_any_is_weaker(
    mandatory: Seq<SignatureAlgorithm>,
    outcomes: Seq<SlotOutcome>,
)
    ensures
        mandatory.len() > 0 && accepts(PolicyView::RequireAll(mandatory), outcomes) ==> accepts(
            PolicyView::RequireAny,
            outcomes,
        ),
        has_status(outcomes, SlotStatus::Valid) ==> spec_evaluate(PolicyView::RequireAny, outcomes)
            is Accepted,
{
    lemma_evaluate_accepts(PolicyView::RequireAny, outcomes);
    if mandatory.len() > 0 && accepts(PolicyView::RequireAll(mandatory), outcomes) {
        let first = mandatory[0];
        assert(has_valid(outcomes, first));
        let i = choose|i: int|
            0 <= i < outcomes.len() && (#[trigger] outcomes[i]).status == SlotStatus::Valid
                && outcomes[i].algorithm == first;
        assert(outcomes[i].status == SlotStatus::Valid);
    }
}

/// Finds the first slot with the given status.
fn find_status(outcomes: &[SlotOutcome], status: SlotStatus) -> (found: Option<usize>)
    ensures
        first_with_status(outcomes@, status) == match found {
            Some(i) => Some(i as int),
            None => None,
        },
        found matches Some(i) ==> i < outcomes@.len(),
{
    let mut i: usize = 0;
    while i < outcomes.len()
        invariant
            i <= outcomes.len(),
            forall|j: int| 0 <= j < i ==> (#[trigger] outcomes@[j]).status != status,
        decreases outcomes.len() - i,
    {
        if outcomes[i].status == status {
            proof {
                lemma_first_with_status(outcomes@, status);
            }
            return Some(i);
        }
        i += 1;
    }
    proof {
        lemma_first_with_status(outcomes@, status);
    }
    None
}

/// Whether some slot of the given algorithm is valid.
fn any_valid(outcomes: &[SlotOutcome], algorithm: SignatureAlgorithm) -> (found: bool)
    ensures
        found == has_valid(outcomes@, algorithm),
{
    let mut i: usize = 0;
    while i < outcomes.len()
        invariant
            i <= outcomes.len(),
            forall|j: int|
                0 <= j < i ==> !((#[trigger] outcomes@[j]).status == SlotStatus::Valid
                    && outcomes@[j].algorithm == algorithm),
        decreases outcomes.len() - i,
    {
        if outcomes[i].status == SlotStatus::Valid && outcomes[i].algorithm == algorithm {
            return true;
        }
        i += 1;
    }
    false
}

/// Finds the first mandatory algorithm that has no valid slot.
fn find_missing(mandatory: &[SignatureAlgorithm], outcomes: &[SlotOutcome]) -> (found: Option<usize>)
    ensures
        first_missing(mandatory@, outcomes@) == match found {
            Some(j) => Some(j as int),
            None => None,
        },
        found matches Some(j) ==> j < mandatory@.len(),
{
    let mut j: usize = 0;
    while j < mandatory.len()
        invariant
            j <= mandatory.len(),
            forall|k: int| 0 <= k < j ==> has_valid(outcomes@, #[trigger] mandatory@[k]),
        decreases mandatory.len() - j,
    {
        if !any_valid(outcomes, mandatory[j]) {
            proof {
                lemma_first_missing(mandatory@, outcomes@);
            }
            return Some(j);
        }
        j += 1;
    }
    proof {
        lemma_first_missing(mandatory@, outcomes@);
    }
    None
}

/// Combines the slots' outcomes into one answer under the policy.
pub fn evaluate(policy: &Policy, outcomes: &[SlotOutcome]) -> (verdict: Verdict)
    ensures
        verdict == spec_evaluate(policy@, outcomes@),
        verdict is Accepted <==> accepts(policy@, outcomes@),
{
    proof {
        lemma_evaluate_accepts(policy@, outcomes@);
    }
    match policy {
        Policy::RequireAll(mandatory) => match find_status(outcomes, SlotStatus::Invalid) {
            Some(i) => Verdict::Rejected(Rejection::InvalidSignature(i)),
            None => match find_missing(mandatory.as_slice(), outcomes) {
                Some(j) => Verdict::Rejected(Rejection::MissingAlgorithm(mandatory[j])),
                None => Verdict::Accepted,
            },
        },
        Policy::RequireAny => match find_status(outcomes, SlotStatus::Valid) {
            Some(_) => Verdict::Accepted,
            None => match find_status(outcomes, SlotStatus::Invalid) {
                Some(i) => Verdict::Rejected(Rejection::InvalidSignature(i)),
                None => match find_status(outcomes, SlotStatus::Unknown) {
                    Some(i) => Verdict::Rejected(Rejection::UnknownKey(i)),
                    None => Verdict::Rejected(Rejection::NoSignatures),
                },
            },
        },
    }
}

/// The index of the first key of the registry that the digest identifies.
pub open spec fn spec_lookup(registry: Seq<Keypair>, key_digest: Seq<u8>) -> Option<int>
    decreases registry.len(),
{
    if registry.len() == 0 {
        None
    } else {
        match spec_lookup(registry.drop_last(), key_digest) {
            Some(found) => Some(found),
            None => if registry.last().spec_public_key_digest() == key_digest {
                Some(registry.len() - 1)
            } else {
                None
            },
        }
    }
}

/// `spec_lookup` gives a key that the digest identifies and before which no
/// key is identified by it, and gives none only where the digest identifies
/// no key of the registry.
pub proof fn lemma_lookup(registry: Seq<Keypair>, key_digest: Seq<u8>)
    ensures
        match spec_lookup(registry, key_digest) {
            Some(found) => 0 <= found < registry.len()
                && registry[found].spec_public_key_digest() == key_digest && forall|j: int|
                0 <= j < found ==> (#[trigger] registry[j]).spec_public_key_digest() != key_digest,
            None => forall|j: int|
                0 <= j < registry.len() ==> (#[trigger] registry[j]).spec_public_key_digest()
                    != key_digest,
        },
    decreases registry.len(),
{
    if registry.len() > 0 {
        let front = registry.drop_last();
        lemma_lookup(front, key_digest);
        assert(forall|j: int| 0 <= j < front.len() ==> front[j] == registry[j]);
    }
}

/// What verification finds of one slot, given the digest of the content. A
/// slot whose key the registry does not hold is `Unknown`. Any other slot is
/// `Valid` where it names the key's algorithm and carries a well-formed
/// signature that the key accepts for the digest, and `Invalid` otherwise.
pub open spec fn spec_classify(registry: Seq<Keypair>, digest: Seq<u8>, slot: SlotView) -> SlotStatus {
    match spec_lookup(registry, slot.public_key_digest) {
        None => SlotStatus::Unknown,
        Some(found) => if registry[found].spec_algorithm() == slot.algorithm
            && signature_well_formed(slot.algorithm, slot.signature)
            && registry[found].spec_accepts(digest, slot.signature) {
            SlotStatus::Valid
        } else {
            SlotStatus::Invalid
        },
    }
}

/// The outcomes of all slots, in slot order.
pub open spec fn spec_outcomes(registry: Seq<Keypair>, digest: Seq<u8>, slots: Seq<SlotView>) -> Seq<SlotOutcome> {
    Seq::new(
        slots.len(),
        |i: int|
            SlotOutcome {
                algorithm: slots[i].algorithm,
                status: spec_classify(registry, digest, slots[i]),
            },
    )
}

/// Downgrade resistance, slot by slot: slots among which none is of a
/// mandatory algorithm are rejected under `RequireAll`, whatever the registry
/// holds and whatever the other slots carry. Stripping an algorithm's slots
/// from a container leaves just such slots.
pub proof fn lemma_stripped_container_is_rejected(
    registry: Seq<Keypair>,
    digest: Seq<u8>,
    slots: Seq<SlotView>,
    mandatory: Seq<SignatureAlgorithm>,
    algorithm: SignatureAlgorithm,
)
    requires
        mandatory.contains(algorithm),
        forall|i: int| 0 <= i < slots.len() ==> (#[trigger] slots[i]).algorithm != algorithm,
    ensures
        spec_evaluate(PolicyView::RequireAll(mandatory), spec_outcomes(registry, digest, slots))
            is Rejected,
{
    let outcomes = spec_outcomes(registry, digest, slots);
    assert forall|i: int| 0 <= i < outcomes.len() implies (#[trigger] outcomes[i]).algorithm
        != algorithm by {
        assert(outcomes[i].algorithm == slots[i].algorithm);
    }
    lemma_require_all_rejects_stripped(mandatory, outcomes, algorithm);
}

/// What holds of a container that the keypairs have signed over `digest`:
/// it is of the current version, records the hash algorithm, and holds one
/// slot for each keypair, in the keypairs' order, signed by that keypair.
pub open spec fn spec_signed_by(
    keypairs: Seq<Keypair>,
    hash_algorithm: HashAlgorithm,
    digest: Seq<u8>,
    container: ContainerView,
) -> bool {
    &&& container.version == VERSION
    &&& container.hash_algorithm == hash_algorithm
    &&& container.slots.len() == keypairs.len()
    &&& forall|i: int|
        0 <= i < keypairs.len() ==> (#[trigger] keypairs[i]).spec_signed(
            digest,
            container.slots[i],
        )
}

/// Whether the registry answers for a key: the first key of the registry
/// that the key's digest identifies is of the same algorithm and has the
/// same public key.
pub open spec fn registry_holds(registry: Seq<Keypair>, key: Keypair) -> bool {
    match spec_lookup(registry, key.spec_public_key_digest()) {
        Some(found) => registry[found].spec_algorithm() == key.spec_algorithm()
            && registry[found].spec_public_bytes() == key.spec_public_bytes(),
        None => false,
    }
}

/// The algorithms of the keypairs, in their order.
pub open spec fn algorithms_of(keypairs: Seq<Keypair>) -> Seq<SignatureAlgorithm> {
    Seq::new(keypairs.len(), |i: int| keypairs[i].spec_algorithm())
}

/// A hybrid signature verifies: a container that keypairs signed over the
/// digest, each with its two halves belonging together, has every slot
/// `Valid` against a registry that answers for each of the keypairs. It is
/// accepted under `RequireAll` of the keypairs' algorithms and, where there
/// is a keypair at all, under `RequireAny`.
pub proof fn lemma_signed_container_is_accepted(
    keypairs: Seq<Keypair>,
    registry: Seq<Keypair>,
    hash_algorithm: HashAlgorithm,
    digest: Seq<u8>,
    container: ContainerView,
)
    requires
        spec_signed_by(keypairs, hash_algorithm, digest, container),
        forall|i: int| 0 <= i < keypairs.len() ==> (#[trigger] keypairs[i]).spec_matched(),
        forall|i: int| 0 <= i < keypairs.len() ==> registry_holds(registry, #[trigger] keypairs[i]),
    ensures
        forall|i: int|
            0 <= i < container.slots.len() ==> (#[trigger] spec_outcomes(
                registry,
                digest,
                container.slots,
            )[i]).status == SlotStatus::Valid,
        accepts(
            PolicyView::RequireAll(algorithms_of(keypairs)),
            spec_outcomes(registry, digest, container.slots),
        ),
        keypairs.len() > 0 ==> accepts(
            PolicyView::RequireAny,
            spec_outcomes(registry, digest, container.slots),
        ),
{
    let outcomes = spec_outcomes(registry, digest, container.slots);
    let mandatory = algorithms_of(keypairs);
    assert forall|i: int| 0 <= i < container.slots.len() implies (#[trigger] outcomes[i]).status
        == SlotStatus::Valid && outcomes[i].algorithm == keypairs[i].spec_algorithm() by {
        let key = keypairs[i];
        let slot = container.slots[i];
        assert(key.spec_signed(digest, slot));
        assert(registry_holds(registry, key));
        let found = spec_lookup(registry, slot.public_key_digest)->Some_0;
        key.lemma_accepts_by_public_half(registry[found], digest, slot.signature);
    }
    assert forall|j: int| 0 <= j < mandatory.len() implies has_valid(
        outcomes,
        #[trigger] mandatory[j],
    ) by {
        assert(outcomes[j].status == SlotStatus::Valid);
        assert(outcomes[j].algorithm == mandatory[j]);
    }
    if keypairs.len() > 0 {
        assert(outcomes[0].status == SlotStatus::Valid);
    }
    assert forall|i: int| 0 <= i < outcomes.len() implies (#[trigger] outcomes[i]).status
        != SlotStatus::Invalid by {
    }
}

/// Whether every keypair holds its private half.
pub open spec fn all_can_sign(keypairs: Seq<Keypair>) -> bool {
    forall|i: int| 0 <= i < keypairs.len() ==> (#[trigger] keypairs[i]).spec_has_private()
}

/// The identifying digest of every key of the registry, in order.
fn registry_digests(registry: &[Keypair]) -> (digests: Vec<[u8; 32]>)
    ensures
        digests@.len() == registry@.len(),
        forall|k: int|
            0 <= k < registry@.len() ==> (#[trigger] digests@[k])@
                == registry@[k].spec_public_key_digest(),
{
    let mut digests: Vec<[u8; 32]> = Vec::new();
    let mut k: usize = 0;
    while k < registry.len()
        invariant
            k <= registry.len(),
            digests@.len() == k,
            forall|j: int|
                0 <= j < k ==> (#[trigger] digests@[j])@ == registry@[j].spec_public_key_digest(),
        decreases registry.len() - k,
    {
        digests.push(registry[k].public_key_digest());
        k += 1;
    }
    digests
}

/// Finds the first key of the registry that the digest identifies.
fn lookup(registry: &[Keypair], digests: &Vec<[u8; 32]>, key_digest: &[u8; 32]) -> (found: Option<usize>)
    requires
        digests@.len() == registry@.len(),
        forall|k: int|
            0 <= k < registry@.len() ==> (#[trigger] digests@[k])@
                == registry@[k].spec_public_key_digest(),
    ensures
        spec_lookup(registry@, key_digest@) == match found {
            Some(k) => Some(k as int),
            None => None,
        },
        found matches Some(k) ==> k < registry@.len(),
{
    let mut k: usize = 0;
    while k < digests.len()
        invariant
            k <= digests.len(),
            digests@.len() == registry@.len(),
            forall|j: int|
                0 <= j < registry@.len() ==> (#[trigger] digests@[j])@
                    == registry@[j].spec_public_key_digest(),
            forall|j: int|
                0 <= j < k ==> (#[trigger] registry@[j]).spec_public_key_digest() != key_digest@,
        decreases digests.len() - k,
    {
        if bytes_equal(digests[k].as_slice(), key_digest.as_slice()) {
            proof {
                assert(digests@[k as int]@ == registry@[k as int].spec_public_key_digest());
                lemma_lookup(registry@, key_digest@);
            }
            return Some(k);
        }
        proof {
            assert(digests@[k as int]@ == registry@[k as int].spec_public_key_digest());
        }
        k += 1;
    }
    proof {
        lemma_lookup(registry@, key_digest@);
    }
    None
}

/// Classifies one slot against a registry whose digests are at hand.
fn classify_with(
    registry: &[Keypair],
    digests: &Vec<[u8; 32]>,
    digest: &[u8],
    slot: &SignatureSlot,
) -> (status: SlotStatus)
    requires
        digests@.len() == registry@.len(),
        forall|k: int|
            0 <= k < registry@.len() ==> (#[trigger] digests@[k])@
                == registry@[k].spec_public_key_digest(),
    ensures
        status == spec_classify(registry@, digest@, slot@),
{
    match lookup(registry, digests, &slot.public_key_digest) {
        None => SlotStatus::Unknown,
        Some(found) => {
            let key = &registry[found];
            if key.algorithm() != slot.algorithm {
                return SlotStatus::Invalid;
            }
            match key.verify(digest, slot.signature.as_slice()) {
                Ok(true) => SlotStatus::Valid,
                _ => SlotStatus::Invalid,
            }
        },
    }
}

/// Classifies one slot of a container against the registry, given the
/// digest of the content.
pub fn classify(registry: &[Keypair], digest: &[u8], slot: &SignatureSlot) -> (status: SlotStatus)
    ensures
        status == spec_classify(registry@, digest@, slot@),
{
    let digests = registry_digests(registry);
    classify_with(registry, &digests, digest, slot)
}

impl Policy {
    /// The default policy for what the given keypairs sign: `RequireAll` of
    /// their algorithms, in their order. The container does not record it;
    /// the signer passes it on to those who verify.
    pub fn require_all_of(keypairs: &[Keypair]) -> (policy: Policy)
        ensures
            policy@ == PolicyView::RequireAll(algorithms_of(keypairs@)),
    {
        let mut mandatory: Vec<SignatureAlgorithm> = Vec::new();
        let mut i: usize = 0;
        while i < keypairs.len()
            invariant
                i <= keypairs.len(),
                mandatory@ == Seq::new(i as nat, |j: int| keypairs@[j].spec_algorithm()),
            decreases keypairs.len() - i,
        {
            mandatory.push(keypairs[i].algorithm());
            assert(mandatory@ =~= Seq::new((i + 1) as nat, |j: int| keypairs@[j].spec_algorithm()));
            i += 1;
        }
        Policy::RequireAll(mandatory)
    }
}

/// Whether every keypair is an Ed25519 key, whose signer cannot fail.
pub open spec fn all_ed25519(keypairs: Seq<Keypair>) -> bool {
    forall|i: int| 0 <= i < keypairs.len() ==> (#[trigger] keypairs[i]) is Ed25519
}

/// What signing with the keypairs answers where it gives no container:
/// `Capacity` for more than 255 keypairs; else `NoPrivateKey` where a
/// keypair lacks its private half; else `InvalidKey`, which only a Falcon
/// signer that failed brings about.
pub open spec fn spec_sign_failure(keypairs: Seq<Keypair>, error: Error) -> bool {
    if keypairs.len() > MAX_SIGNATURES {
        error == Error::Capacity
    } else if !all_can_sign(keypairs) {
        error == Error::NoPrivateKey
    } else {
        !all_ed25519(keypairs) && (error matches Error::InvalidKey(detail) && detail@
            == no_signature_text())
    }
}

/// Whether every keypair holds its private half.
fn can_all_sign(keypairs: &[Keypair]) -> (all: bool)
    ensures
        all == all_can_sign(keypairs@),
{
    let mut i: usize = 0;
    while i < keypairs.len()
        invariant
            i <= keypairs.len(),
            forall|j: int| 0 <= j < i ==> (#[trigger] keypairs@[j]).spec_has_private(),
        decreases keypairs.len() - i,
    {
        if !keypairs[i].has_private() {
            return false;
        }
        i += 1;
    }
    true
}

/// Signs a digest with every keypair, in order, into one container. Either
/// all sign or none does: more than 255 keypairs give `Capacity`, and a
/// keypair without its private half gives `NoPrivateKey`, both before any
/// key is used; a Falcon signer that fails gives `InvalidKey`; and then
/// there is no container at all. Keypairs that are all Ed25519 keys with
/// their private halves, at most 255 of them, always sign.
pub fn sign_digest(digest: &[u8], hash_algorithm: HashAlgorithm, keypairs: &[Keypair]) -> (container:
    Result<GungnirSignature, Error>)
    ensures
        container is Ok ==> (keypairs@.len() <= MAX_SIGNATURES && all_can_sign(keypairs@)),
        (keypairs@.len() <= MAX_SIGNATURES && all_can_sign(keypairs@) && all_ed25519(keypairs@))
            ==> container is Ok,
        container matches Ok(signed) ==> spec_signed_by(keypairs@, hash_algorithm, digest@, signed@),
        container matches Err(error) ==> spec_sign_failure(keypairs@, error),
{
    if keypairs.len() > MAX_SIGNATURES {
        return Err(Error::Capacity);
    }
    if !can_all_sign(keypairs) {
        return Err(Error::NoPrivateKey);
    }
    let mut slots: Vec<SignatureSlot> = Vec::new();
    let mut i: usize = 0;
    while i < keypairs.len()
        invariant
            i <= keypairs.len() <= MAX_SIGNATURES,
            all_can_sign(keypairs@),
            slots@.len() == i,
            forall|j: int| 0 <= j < i ==> (#[trigger] keypairs@[j]).spec_signed(digest@, slots@[j]@),
        decreases keypairs.len() - i,
    {
        match keypairs[i].sign(digest) {
            Ok(slot) => {
                slots.push(slot);
            },
            Err(error) => {
                assert(keypairs@[i as int].spec_has_private());
                assert(!(keypairs@[i as int] is Ed25519));
                return Err(error);
            },
        }
        i += 1;
    }
    match GungnirSignature::new(hash_algorithm, slots) {
        Ok(signed) => {
            assert(forall|j: int|
                0 <= j < keypairs@.len() ==> signed@.slots[j] == slots@[j]@);
            Ok(signed)
        },
        Err(error) => Err(error),
    }
}

/// Signs the content with every keypair, in order, into one container: one
/// digest of the content under `hash_algorithm`, and each keypair's
/// signature over that digest. The number of keypairs and the presence of
/// every private half are tested before any digest or signature is
/// computed.
pub fn sign(content: &[u8], hash_algorithm: HashAlgorithm, keypairs: &[Keypair]) -> (container:
    Result<GungnirSignature, Error>)
    ensures
        container is Ok ==> (keypairs@.len() <= MAX_SIGNATURES && all_can_sign(keypairs@)),
        (keypairs@.len() <= MAX_SIGNATURES && all_can_sign(keypairs@) && all_ed25519(keypairs@))
            ==> container is Ok,
        container matches Ok(signed) ==> spec_signed_by(
            keypairs@,
            hash_algorithm,
            spec_digest(hash_algorithm, content@),
            signed@,
        ),
        container matches Err(error) ==> spec_sign_failure(keypairs@, error),
{
    if keypairs.len() > MAX_SIGNATURES {
        return Err(Error::Capacity);
    }
    if !can_all_sign(keypairs) {
        return Err(Error::NoPrivateKey);
    }
    let content_digest = digest(hash_algorithm, content);
    sign_digest(content_digest.as_slice(), hash_algorithm, keypairs)
}

/// Verifies a container against the registry, given the digest of the
/// content under the container's hash algorithm: every slot is classified,
/// and the outcomes are combined under the policy.
pub fn verify_digest(
    digest: &[u8],
    container: &GungnirSignature,
    registry: &[Keypair],
    policy: &Policy,
) -> (result: VerificationResult)
    ensures
        result.outcomes@ == spec_outcomes(registry@, digest@, container@.slots),
        result.verdict == spec_evaluate(policy@, result.outcomes@),
        result.verdict is Accepted <==> accepts(policy@, result.outcomes@),
{
    let digests = registry_digests(registry);
    let slots = container.signatures();
    let mut outcomes: Vec<SlotOutcome> = Vec::new();
    let mut i: usize = 0;
    while i < slots.len()
        invariant
            i <= slots.len(),
            slot_views(slots@) == container@.slots,
            digests@.len() == registry@.len(),
            forall|k: int|
                0 <= k < registry@.len() ==> (#[trigger] digests@[k])@
                    == registry@[k].spec_public_key_digest(),
            outcomes@ == spec_outcomes(registry@, digest@, container@.slots).take(i as int),
        decreases slots.len() - i,
    {
        let status = classify_with(registry, &digests, digest, &slots[i]);
        outcomes.push(SlotOutcome { algorithm: slots[i].algorithm, status });
        proof {
            let all = spec_outcomes(registry@, digest@, container@.slots);
            assert(container@.slots[i as int] == slots@[i as int]@);
            assert(outcomes@ =~= all.take(i + 1));
        }
        i += 1;
    }
    proof {
        let all = spec_outcomes(registry@, digest@, container@.slots);
        assert(all.take(i as int) =~= all);
    }
    let verdict = evaluate(policy, outcomes.as_slice());
    VerificationResult { outcomes, verdict }
}

/// Verifies a container against the content and the registry: the content
/// is digested anew under the container's own hash algorithm, every slot is
/// classified, and the outcomes are combined under the policy.
pub fn verify(
    content: &[u8],
    container: &GungnirSignature,
    registry: &[Keypair],
    policy: &Policy,
) -> (result: VerificationResult)
    ensures
        result.outcomes@ == spec_outcomes(
            registry@,
            spec_digest(container@.hash_algorithm, content@),
            container@.slots,
        ),
        result.verdict == spec_evaluate(policy@, result.outcomes@),
        result.verdict is Accepted <==> accepts(policy@, result.outcomes@),
{
    let content_digest = digest(container.hash_algorithm(), content);
    verify_digest(content_digest.as_slice(), container, registry, policy)
}

} // verus!
