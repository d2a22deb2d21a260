//! Signature sets: the attestations of a guardian set's members to one hash.
use vstd::prelude::*;
use crate::error::ErrorCode;
use crate::guardian::GuardianSetInfo;
use crate::MAX_LEN_GUARDIAN_KEYS;

verus! {

/// The attestations collected for one message hash and guardian set.
#[derive(Clone, Debug, PartialEq, Eq)]
pub struct Signatures {
    /// One slot per guardian; an all-zero slot holds no attestation.
    pub signatures: Vec<[u8; 32]>,
    /// Hash of the attested message body.
    pub hash: [u8; 32],
    /// Index of the guardian set whose members attest.
    pub guardian_set_index: u32,
}

/// A slot holds an attestation when one of its bytes is not zero.
pub open spec fn is_present(slot: Seq<u8>) -> bool {
    exists|j: int| 0 <= j < slot.len() && slot[j] != 0
}

/// The number of slots that hold an attestation.
pub open spec fn count_present(slots: Seq<[u8; 32]>) -> nat
    decreases slots.len(),
{
    if slots.len() == 0 {
        0
    } else {
        count_present(slots.drop_last()) + if is_present(slots.last()@) {
            1nat
        } else {
            0nat
        }
    }
}

/// Whether a slot holds an attestation.
pub fn slot_present(slot: &[u8; 32]) -> (r: bool)
    ensures
        r == is_present(slot@),
{
    let mut i: usize = 0;
    while i < 32
        invariant
            i <= 32,
            forall|j: int| 0 <= j < i ==> slot@[j] == 0,
        decreases 32 - i,
    {
        if slot[i] != 0 {
            return true;
        }
        i = i + 1;
    }
    false
}

/// Counts the slots that hold an attestation.
pub fn signature_count(slots: &Vec<[u8; 32]>) -> (r: usize)
    ensures
        r == count_present(slots@),
{
    let mut n: usize = 0;
    let mut i: usize = 0;
    while i < slots.len()
        invariant
            i <= slots@.len(),
            n == count_present(slots@.subrange(0, i as int)),
            n <= i,
        decreases slots@.len() - i,
    {
        assert(slots@.subrange(0, i + 1).drop_last() == slots@.subrange(0, i as int));
        if slot_present(&slots[i]) {
            n = n + 1;
        }
        i = i + 1;
    }
    assert(slots@.subrange(0, slots@.len() as int) == slots@);
    n
}

/// Where the first signature of a signature-verification instruction
/// starts: the little-endian offset in bytes 1 and 2 of its data (byte 0
/// counts the signatures).
pub open spec fn first_signature_offset(data: Seq<u8>) -> int {
    data[1] as int + data[2] as int * 256
}

/// The attestation that a signature-verification instruction carries: the
/// first 32 bytes of its first signature, where its data holds them.
pub open spec fn carried_attestation(data: Seq<u8>) -> Option<Seq<u8>> {
    if data.len() < 3 || data.len() < first_signature_offset(data) + 32 {
        None
    } else {
        Some(data.subrange(first_signature_offset(data), first_signature_offset(data) + 32))
    }
}

/// Reads the attestation that a signature-verification instruction carries.
pub fn attestation_from_instruction(data: &[u8]) -> (r: Option<[u8; 32]>)
    ensures
        match carried_attestation(data@) {
            Some(a) => r is Some && r->Some_0@ == a,
            None => r is None,
        },
{
    if data.len() < 3 {
        return None;
    }
    let offset = data[1] as usize + data[2] as usize * 256;
    if data.len() < offset || data.len() - offset < 32 {
        return None;
    }
    let mut a = [0u8; 32];
    let mut i: usize = 0;
    while i < 32
        invariant
            i <= 32,
            offset == first_signature_offset(data@),
            offset + 32 <= data@.len(),
            forall|j: int| 0 <= j < i ==> a@[j] == data@[offset + j],
        decreases 32 - i,
    {
        a[i] = data[offset + i];
        i = i + 1;
    }
    assert(a@ =~= data@.subrange(offset as int, offset + 32));
    Some(a)
}

/// What signature collection reads and writes on the ledger.
#[derive(Clone, Debug)]
pub struct VerifySig {
    /// The guardian set whose members attest.
    pub guardian_set: GuardianSetInfo,
    /// The signature set stored for this hash and guardian set, if any.
    pub signatures: Option<Signatures>,
    /// The attestations carried by the transaction's instructions, by position.
    pub attestations: Vec<[u8; 32]>,
}

/// Arguments of signature collection.
#[derive(Clone, Copy, Debug)]
pub struct VerifySigsData {
    /// Hash of the VAA body.
    pub hash: [u8; 32],
    /// For each guardian slot, the position of its attestation (negative for none).
    pub signers: [i8; 20],
    /// Succeed only where no signature set exists yet.
    pub initial_creation: bool,
}

/// Every signer that is named has a guardian and an attestation, and that
/// attestation is not empty.
pub open spec fn signers_valid(signers: Seq<i8>, n_keys: int, attestations: Seq<[u8; 32]>) -> bool {
    forall|i: int|
        0 <= i < MAX_LEN_GUARDIAN_KEYS && signers[i] >= 0 ==> i < n_keys && signers[i]
            < attestations.len() && is_present(attestations[signers[i] as int]@)
}

/// The bytes of an empty slot.
pub open spec fn empty_slot() -> Seq<u8> {
    Seq::new(32, |j: int| 0u8)
}

/// Slot `i` before collection: what is stored, or empty where no set exists.
pub open spec fn base_slot(existing: Option<Signatures>, i: int) -> Seq<u8> {
    match existing {
        Some(s) => s.signatures@[i]@,
        None => empty_slot(),
    }
}

/// Slot `i` after collection: the named attestation where the guardian is
/// named, else what the slot held.
pub open spec fn merged_slot(
    existing: Option<Signatures>,
    signers: Seq<i8>,
    attestations: Seq<[u8; 32]>,
    i: int,
) -> Seq<u8> {
    if signers[i] >= 0 {
        attestations[signers[i] as int]@
    } else {
        base_slot(existing, i)
    }
}

/// A full row of empty slots, one per possible guardian.
pub fn empty_slots() -> (v: Vec<[u8; 32]>)
    ensures
        v@.len() == MAX_LEN_GUARDIAN_KEYS,
        forall|j: int| 0 <= j < MAX_LEN_GUARDIAN_KEYS ==> v@[j]@ == empty_slot(),
{
    let mut v: Vec<[u8; 32]> = Vec::new();
    let mut k: usize = 0;
    while k < MAX_LEN_GUARDIAN_KEYS
        invariant
            k <= MAX_LEN_GUARDIAN_KEYS,
            v@.len() == k,
            forall|j: int| 0 <= j < k ==> v@[j]@ == empty_slot(),
        decreases MAX_LEN_GUARDIAN_KEYS - k,
    {
        let z = [0u8; 32];
        assert(z@ =~= empty_slot());
        v.push(z);
        k = k + 1;
    }
    v
}

/// The error for the signers named: `None` where each has a guardian and a
/// non-empty attestation.
pub open spec fn signer_error(ctx: VerifySig, signers: Seq<i8>) -> Option<ErrorCode> {
    if !signers_valid(signers, ctx.guardian_set.keys@.len() as int, ctx.attestations@) {
        Some(ErrorCode::InvalidInstructionData)
    } else {
        None
    }
}

/// The error of collection, checked in order; `None` where it succeeds.
pub open spec fn collect_error(ctx: VerifySig, hash: Seq<u8>, signers: Seq<i8>, initial_creation: bool) -> Option<ErrorCode> {
    match ctx.signatures {
        Some(s) => if initial_creation {
            Some(ErrorCode::SignatureSetExists)
        } else if s.hash@ != hash || s.guardian_set_index != ctx.guardian_set.index {
            Some(ErrorCode::InvalidArgument)
        } else if s.signatures@.len() != MAX_LEN_GUARDIAN_KEYS {
            Some(ErrorCode::InvalidAccountData)
        } else {
            signer_error(ctx, signers)
        },
        None => signer_error(ctx, signers),
    }
}

/// Records the attestations of the named guardians into the signature set
/// of `hash` for the guardian set, creating the set where none exists.
/// A named attestation that is empty is refused, so a filled slot is never
/// emptied again and every named guardian's slot ends up filled.
pub fn verify_signatures(
    ctx: &mut VerifySig,
    hash: [u8; 32],
    signers: [i8; 20],
    initial_creation: bool,
) -> (r: Result<(), ErrorCode>)
    ensures
        final(ctx).guardian_set == old(ctx).guardian_set,
        final(ctx).attestations == old(ctx).attestations,
        match collect_error(*old(ctx), hash@, signers@, initial_creation) {
            Some(e) => r == Err::<(), ErrorCode>(e) && final(ctx).signatures == old(ctx).signatures,
            None => r is Ok && final(ctx).signatures is Some && {
                let s = final(ctx).signatures->Some_0;
                &&& s.hash == hash
                &&& s.guardian_set_index == old(ctx).guardian_set.index
                &&& s.signatures@.len() == MAX_LEN_GUARDIAN_KEYS
                &&& forall|i: int|
                    0 <= i < MAX_LEN_GUARDIAN_KEYS ==> s.signatures@[i]@ == merged_slot(
                        old(ctx).signatures,
                        signers@,
                        old(ctx).attestations@,
                        i,
                    )
            },
        },
{
    let mut slots: Vec<[u8; 32]> = match &ctx.signatures {
        Some(s) => {
            if initial_creation {
                return Err(ErrorCode::SignatureSetExists);
            }
            if !crate::codec::bytes_eq(&s.hash, &hash) || s.guardian_set_index != ctx.guardian_set.index {
                return Err(ErrorCode::InvalidArgument);
            }
            if s.signatures.len() != MAX_LEN_GUARDIAN_KEYS {
                return Err(ErrorCode::InvalidAccountData);
            }
            s.signatures.clone()
        },
        None => empty_slots(),
    };
    let ghost existing = ctx.signatures;
    assert(slots@.len() == MAX_LEN_GUARDIAN_KEYS);
    assert(forall|j: int| 0 <= j < MAX_LEN_GUARDIAN_KEYS ==> slots@[j]@ == base_slot(existing, j));
    assert(collect_error(*ctx, hash@, signers@, initial_creation) == signer_error(*ctx, signers@));
    let n_keys = ctx.guardian_set.keys.len();
    let n_att = ctx.attestations.len();
    let mut i: usize = 0;
    while i < MAX_LEN_GUARDIAN_KEYS
        invariant
            i <= MAX_LEN_GUARDIAN_KEYS,
            n_keys == ctx.guardian_set.keys@.len(),
            n_att == ctx.attestations@.len(),
            collect_error(*ctx, hash@, signers@, initial_creation) == signer_error(*ctx, signers@),
            forall|j: int|
                0 <= j < i && signers@[j] >= 0 ==> j < n_keys && signers@[j] < n_att
                    && is_present(ctx.attestations@[signers@[j] as int]@),
        decreases MAX_LEN_GUARDIAN_KEYS - i,
    {
        let s = signers[i];
        if s >= 0 && (i >= n_keys || s as usize >= n_att || !slot_present(&ctx.attestations[s as usize])) {
            assert(!(i < ctx.guardian_set.keys@.len() && signers@[i as int] < ctx.attestations@.len()
                && is_present(ctx.attestations@[signers@[i as int] as int]@)));
            return Err(ErrorCode::InvalidInstructionData);
        }
        i = i + 1;
    }
    let mut i: usize = 0;
    while i < MAX_LEN_GUARDIAN_KEYS
        invariant
            i <= MAX_LEN_GUARDIAN_KEYS,
            existing == ctx.signatures,
            slots@.len() == MAX_LEN_GUARDIAN_KEYS,
            n_att == ctx.attestations@.len(),
            signers_valid(signers@, ctx.guardian_set.keys@.len() as int, ctx.attestations@),
            forall|j: int| 0 <= j < i ==> slots@[j]@ == merged_slot(existing, signers@, ctx.attestations@, j),
            forall|j: int| i <= j < MAX_LEN_GUARDIAN_KEYS ==> slots@[j]@ == base_slot(existing, j),
        decreases MAX_LEN_GUARDIAN_KEYS - i,
    {
        let s = signers[i];
        if s >= 0 {
            slots.set(i, ctx.attestations[s as usize]);
        }
        i = i + 1;
    }
    ctx.signatures = Some(Signatures { signatures: slots, hash, guardian_set_index: ctx.guardian_set.index });
    Ok(())
}

} // verus!

verus! {

/// Collection only adds attestations: a slot that held one before still
/// holds one after, and the slot of every named guardian holds one.
pub proof fn lemma_collection_fills_slots(
    existing: Option<Signatures>,
    signers: Seq<i8>,
    n_keys: int,
    attestations: Seq<[u8; 32]>,
    i: int,
)
    requires
        0 <= i < MAX_LEN_GUARDIAN_KEYS,
        signers.len() == MAX_LEN_GUARDIAN_KEYS,
        signers_valid(signers, n_keys, attestations),
    ensures
        is_present(base_slot(existing, i)) ==> is_present(
            merged_slot(existing, signers, attestations, i),
        ),
        signers[i] >= 0 ==> is_present(merged_slot(existing, signers, attestations, i)),
        signers[i] < 0 ==> merged_slot(existing, signers, attestations, i) == base_slot(
            existing,
            i,
        ),
{
}

} // verus!
