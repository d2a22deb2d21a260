//! Finalization of attested messages: guardian set liveness, epoch binding,
//! integrity, quorum and one-time claiming.
use vstd::prelude::*;
use crate::codec::{body_bytes, bytes_eq, canonical_hash, keccak256_of};
use crate::error::ErrorCode;
use crate::guardian::{check_active, GuardianSetInfo};
use crate::message::PostedMessage;
use crate::signatures::{count_present, signature_count, Signatures};
use crate::{MAX_LEN_GUARDIAN_KEYS, VAA_TX_FEE};

verus! {

/// Signatures needed for consensus among `n` guardians: two thirds, in one
/// decimal of fixed point, rounded down at each step.
pub open spec fn quorum_threshold(n: int) -> int {
    ((n * 10) / 3) * 2 / 11
}

/// Computes how many signatures are required for consensus among `len_keys`
/// guardians.
pub fn required_consensus_count(len_keys: usize) -> (r: u16)
    requires
        len_keys <= MAX_LEN_GUARDIAN_KEYS,
    ensures
        r as int == quorum_threshold(len_keys as int),
{
    // Taken as u16 so that the multiplication by ten cannot overflow.
    let len = len_keys as u16;
    // Fixed point with one decimal, to deal with rounding.
    let len = (len * 10) / 3;
    // Two thirds.
    let len = len * 2;
    // Back into range.
    len / (10 + 1)
}

/// Record that a message hash was finalized.
#[derive(Clone, Copy, Debug, PartialEq, Eq)]
pub struct ClaimedVAA {
    /// Hash of the claimed VAA body.
    pub hash: [u8; 32],
    /// Time of the claim.
    pub vaa_time: u32,
}

/// The claims made so far: each message hash is finalized at most once.
#[derive(Clone, Debug)]
pub struct ClaimLedger {
    /// Claims, in the order they were made.
    pub claims: Vec<ClaimedVAA>,
}

impl ClaimLedger {
    /// Whether a claim for `h` exists.
    pub open spec fn is_claimed(&self, h: Seq<u8>) -> bool {
        exists|i: int| 0 <= i < self.claims@.len() && self.claims@[i].hash@ == h
    }

    /// No two claims share a hash.
    pub open spec fn wf(&self) -> bool {
        forall|i: int, j: int|
            0 <= i < j < self.claims@.len() ==> self.claims@[i].hash@ != self.claims@[j].hash@
    }

    /// An empty ledger.
    pub fn new() -> (r: ClaimLedger)
        ensures
            r.claims@.len() == 0,
            r.wf(),
    {
        ClaimLedger { claims: Vec::new() }
    }

    /// Whether a claim for `hash` exists.
    pub fn contains(&self, hash: &[u8; 32]) -> (r: bool)
        ensures
            r == self.is_claimed(hash@),
    {
        let mut i: usize = 0;
        while i < self.claims.len()
            invariant
                i <= self.claims@.len(),
                forall|j: int| 0 <= j < i ==> self.claims@[j].hash@ != hash@,
            decreases self.claims@.len() - i,
        {
            if bytes_eq(&self.claims[i].hash, hash) {
                return true;
            }
            i = i + 1;
        }
        false
    }

    /// Claims `hash` at time `now`, unless it was claimed before.
    pub fn claim(&mut self, hash: [u8; 32], now: u32) -> (r: Result<(), ErrorCode>)
        ensures
            old(self).is_claimed(hash@) ==> r == Err::<(), ErrorCode>(ErrorCode::AlreadyClaimed)
                && *final(self) == *old(self),
            !old(self).is_claimed(hash@) ==> r == Ok::<(), ErrorCode>(()) && final(self).claims@
                == old(self).claims@.push((ClaimedVAA { hash, vaa_time: now })),
            old(self).wf() ==> final(self).wf(),
            final(self).is_claimed(hash@),
    {
        if self.contains(&hash) {
            return Err(ErrorCode::AlreadyClaimed);
        }
        self.claims.push(ClaimedVAA { hash, vaa_time: now });
        assert(self.claims@.last().hash@ == hash@);
        Ok(())
    }
}

/// A guardian's signature as carried in a VAA.
#[derive(Clone, Copy, Debug, PartialEq, Eq)]
pub struct Signature {
    pub index: u8,
    pub r: [u8; 32],
    pub s: [u8; 32],
    pub v: u8,
}

/// A VAA as submitted for finalization.
#[derive(Clone, Debug, PartialEq, Eq)]
pub struct PostVAAData {
    /// Version of the VAA.
    pub version: u8,
    /// Index of the guardian set that signed it.
    pub guardian_set_index: u32,
    /// Signatures of the guardians.
    pub signatures: Vec<Signature>,
    /// Time of the message.
    pub timestamp: u32,
    /// Nonce of the message.
    pub nonce: u32,
    /// Chain of the emitter.
    pub emitter_chain: u8,
    /// Address of the emitter.
    pub emitter_address: [u8; 32],
    /// Message payload.
    pub payload: Vec<u8>,
}

/// Lamports that the bridge keeps as a reserve: rent exemption of its own
/// account, at the ledger's default rent of 3480 lamports per byte and year,
/// for the two years of its exemption threshold, over the 128 bytes that the
/// ledger counts for every account and the 24 bytes of `Bridge` (a `u32`
/// index and a `BridgeConfig` of a `u64` and a `u32`, laid out with 8-byte
/// alignment). A change to `Bridge`'s fields changes this constant.
pub const MIN_BRIDGE_BALANCE: u64 = (128 + 24) * 3480 * 2;

/// What finalization reads and writes on the ledger.
#[derive(Clone, Debug)]
pub struct PostVAA {
    /// The guardian set that attested.
    pub guardian_set: GuardianSetInfo,
    /// The collected signatures.
    pub sig_info: Signatures,
    /// Address of the account that holds the signatures.
    pub sig_account: [u8; 32],
    /// The message being finalized.
    pub message: PostedMessage,
    /// Claims made so far.
    pub claims: ClaimLedger,
    /// Balance of the bridge's account.
    pub bridge_lamports: u64,
    /// Balance of the account that pays for the transaction.
    pub payer_lamports: u64,
    /// Current time.
    pub now: u32,
}

/// Refuses signatures collected for another guardian set.
pub fn check_valid_sigs(guardian_set: &GuardianSetInfo, sig_info: &Signatures) -> (r: Result<(), ErrorCode>)
    ensures
        r == (if sig_info.guardian_set_index == guardian_set.index {
            Ok(())
        } else {
            Err(ErrorCode::PostVAAGuardianSetMismatch)
        }),
{
    if sig_info.guardian_set_index != guardian_set.index {
        return Err(ErrorCode::PostVAAGuardianSetMismatch);
    }
    Ok(())
}

/// Refuses signatures over another hash than the recomputed `body_hash`.
pub fn check_integrity(sig_info: &Signatures, body_hash: &[u8; 32]) -> (r: Result<(), ErrorCode>)
    ensures
        r == (if sig_info.hash@ == body_hash@ {
            Ok(())
        } else {
            Err(ErrorCode::PostVAAIntegrityMismatch)
        }),
{
    if !bytes_eq(&sig_info.hash, body_hash) {
        return Err(ErrorCode::PostVAAIntegrityMismatch);
    }
    Ok(())
}

/// Moves `amount` lamports from `sender` to `recipient`, or neither changes.
pub fn transfer_sol(sender: &mut u64, recipient: &mut u64, amount: u64) -> (r: Result<(), ErrorCode>)
    ensures
        *old(sender) < amount ==> r == Err::<(), ErrorCode>(ErrorCode::InsufficientFunds),
        *old(sender) >= amount && *old(recipient) + amount > u64::MAX ==> r == Err::<(), ErrorCode>(
            ErrorCode::InvalidArgument,
        ),
        r is Ok <==> *old(sender) >= amount && *old(recipient) + amount <= u64::MAX,
        r is Ok ==> *final(sender) == *old(sender) - amount && *final(recipient) == *old(recipient)
            + amount,
        r is Err ==> *final(sender) == *old(sender) && *final(recipient) == *old(recipient),
{
    let s = match sender.checked_sub(amount) {
        Some(s) => s,
        None => return Err(ErrorCode::InsufficientFunds),
    };
    let t = match recipient.checked_add(amount) {
        Some(t) => t,
        None => return Err(ErrorCode::InvalidArgument),
    };
    *sender = s;
    *recipient = t;
    Ok(())
}

/// The bridge refunds the transaction fee when its balance exceeds the
/// reserve by more than the fee.
pub open spec fn refund_due(bridge_lamports: u64) -> bool {
    bridge_lamports >= MIN_BRIDGE_BALANCE && VAA_TX_FEE < bridge_lamports - MIN_BRIDGE_BALANCE
}

/// Whether the bridge's balance allows refunding the transaction fee.
pub fn refund_available(bridge_lamports: u64) -> (r: bool)
    ensures
        r == refund_due(bridge_lamports),
{
    let excess = match bridge_lamports.checked_sub(MIN_BRIDGE_BALANCE) {
        Some(e) => e,
        None => 0,
    };
    VAA_TX_FEE < excess
}

/// The error of finalization given the recomputed body hash, checked in
/// order; `None` where it succeeds.
pub open spec fn finalize_error(ctx: PostVAA, body_hash: Seq<u8>) -> Option<ErrorCode> {
    if !ctx.guardian_set.active_at(ctx.now) {
        Some(ErrorCode::PostVAAGuardianSetExpired)
    } else if ctx.sig_info.guardian_set_index != ctx.guardian_set.index {
        Some(ErrorCode::PostVAAGuardianSetMismatch)
    } else if ctx.sig_info.hash@ != body_hash {
        Some(ErrorCode::PostVAAIntegrityMismatch)
    } else if count_present(ctx.sig_info.signatures@) < quorum_threshold(
        ctx.guardian_set.keys@.len() as int,
    ) {
        Some(ErrorCode::PostVAAConsensusFailed)
    } else if ctx.claims.is_claimed(body_hash) {
        Some(ErrorCode::AlreadyClaimed)
    } else {
        None
    }
}

/// The ledger after a successful finalization: the message carries the VAA's
/// version, the time and the signature account; the hash is claimed now; the
/// fee is refunded to the payer where the bridge can afford it.
pub open spec fn finalized(pre: PostVAA, post: PostVAA, version: u8, body_hash: [u8; 32]) -> bool {
    &&& post.guardian_set == pre.guardian_set
    &&& post.sig_info == pre.sig_info
    &&& post.sig_account == pre.sig_account
    &&& post.now == pre.now
    &&& post.message == (PostedMessage {
        vaa_version: version,
        vaa_time: pre.now,
        vaa_signature_account: pre.sig_account,
        ..pre.message
    })
    &&& post.claims.claims@ == pre.claims.claims@.push((ClaimedVAA { hash: body_hash, vaa_time: pre.now }))
    &&& if refund_due(pre.bridge_lamports) && pre.payer_lamports + VAA_TX_FEE <= u64::MAX {
        post.bridge_lamports == pre.bridge_lamports - VAA_TX_FEE
            && post.payer_lamports == pre.payer_lamports + VAA_TX_FEE
    } else {
        post.bridge_lamports == pre.bridge_lamports && post.payer_lamports == pre.payer_lamports
    }
}

/// Finalizes a VAA whose body hashes to `body_hash`: checks, in order, that
/// the guardian set is live, that the signatures belong to it, that they are
/// over `body_hash`, that enough guardians signed, and that the hash was not
/// claimed before. On any failure nothing changes.
pub fn post_vaa_with_hash(ctx: &mut PostVAA, vaa: &PostVAAData, body_hash: &[u8; 32]) -> (r: Result<
    (),
    ErrorCode,
>)
    requires
        old(ctx).guardian_set.wf(),
    ensures
        match finalize_error(*old(ctx), body_hash@) {
            Some(e) => r == Err::<(), ErrorCode>(e) && *final(ctx) == *old(ctx),
            None => r is Ok && finalized(*old(ctx), *final(ctx), vaa.version, *body_hash),
        },
{
    match check_active(&ctx.guardian_set, ctx.now) {
        Err(e) => return Err(e),
        Ok(()) => {},
    }
    match check_valid_sigs(&ctx.guardian_set, &ctx.sig_info) {
        Err(e) => return Err(e),
        Ok(()) => {},
    }
    match check_integrity(&ctx.sig_info, body_hash) {
        Err(e) => return Err(e),
        Ok(()) => {},
    }
    // Count the signatures present.
    let signature_count = signature_count(&ctx.sig_info.signatures);
    let required_consensus_count = required_consensus_count(ctx.guardian_set.keys.len());
    if signature_count < required_consensus_count as usize {
        return Err(ErrorCode::PostVAAConsensusFailed);
    }
    // Claim the VAA; a second claim of the same hash fails here.
    match ctx.claims.claim(*body_hash, ctx.now) {
        Err(e) => return Err(e),
        Ok(()) => {},
    }
    // Store the VAA data in the associated message.
    ctx.message.vaa_version = vaa.version;
    ctx.message.vaa_time = ctx.now;
    ctx.message.vaa_signature_account = ctx.sig_account;
    // If the bridge has enough balance, refund the fee to the payer; a refund
    // that cannot be made does not undo the finalization.
    if refund_available(ctx.bridge_lamports) {
        let _ = transfer_sol(&mut ctx.bridge_lamports, &mut ctx.payer_lamports, VAA_TX_FEE);
    }
    Ok(())
}

/// The hash that finalization recomputes from a VAA's body.
pub open spec fn vaa_body_hash(vaa: PostVAAData) -> Seq<u8> {
    keccak256_of(
        body_bytes(vaa.timestamp, vaa.nonce, vaa.emitter_chain, vaa.emitter_address@, vaa.payload@),
    )
}

/// Finalizes a VAA: recomputes the hash of its body and finalizes under it.
pub fn post_vaa(ctx: &mut PostVAA, vaa: &PostVAAData) -> (r: Result<(), ErrorCode>)
    requires
        old(ctx).guardian_set.wf(),
    ensures
        match finalize_error(*old(ctx), vaa_body_hash(*vaa)) {
            Some(e) => r == Err::<(), ErrorCode>(e) && *final(ctx) == *old(ctx),
            None => r is Ok && exists|h: [u8; 32]|
                h@ == vaa_body_hash(*vaa) && #[trigger] finalized(*old(ctx), *final(ctx), vaa.version, h),
        },
{
    let body_hash = canonical_hash(
        vaa.timestamp,
        vaa.nonce,
        vaa.emitter_chain,
        &vaa.emitter_address,
        vaa.payload.as_slice(),
    );
    post_vaa_with_hash(ctx, vaa, &body_hash)
}

} // verus!

verus! {

/// The quorum needed among `n` guardians, for every size a guardian set can
/// have.
pub open spec fn quorum_table(n: int) -> int {
    seq![0int, 0, 1, 1, 2, 2, 3, 4, 4, 5, 6, 6, 7, 7, 8, 9, 9, 10, 10, 11, 12][n]
}

/// For every guardian set size from 0 to 20 the quorum is the tabulated
/// value, never more than the number of guardians, and it does not shrink
/// as the set grows.
pub proof fn lemma_quorum_table(n: int)
    requires
        0 <= n <= MAX_LEN_GUARDIAN_KEYS,
    ensures
        quorum_threshold(n) == quorum_table(n),
        quorum_threshold(n) <= n,
        n > 0 ==> quorum_threshold(n - 1) <= quorum_threshold(n),
{
    let t = seq![0int, 0, 1, 1, 2, 2, 3, 4, 4, 5, 6, 6, 7, 7, 8, 9, 9, 10, 10, 11, 12];
    assert(t.len() == 21);
    assert(forall|k: int| 0 <= k <= 20 ==> #[trigger] quorum_threshold(k) == t[k]) by {
        assert forall|k: int| 0 <= k <= 20 implies #[trigger] quorum_threshold(k) == t[k] by {
            assert(0 <= k <= 20);
        }
    }
    assert(quorum_threshold(n - 1) == t[n - 1] || n == 0);
}

/// Finalizing the same VAA a second time, after a first finalization
/// succeeded, fails with `AlreadyClaimed`.
pub proof fn lemma_replay_refused(pre: PostVAA, post: PostVAA, version: u8, body_hash: [u8; 32])
    requires
        finalize_error(pre, body_hash@) is None,
        finalized(pre, post, version, body_hash),
    ensures
        finalize_error(post, body_hash@) == Some(ErrorCode::AlreadyClaimed),
{
    let last = post.claims.claims@.len() - 1;
    assert(post.claims.claims@[last].hash@ == body_hash@);
    assert(post.claims.is_claimed(body_hash@));
}

/// With a live guardian set, signatures of that set over the right hash and
/// an unclaimed hash: one signature short of the quorum is refused, and
/// exactly the quorum succeeds.
pub proof fn lemma_quorum_boundary(ctx: PostVAA, body_hash: Seq<u8>)
    requires
        ctx.guardian_set.active_at(ctx.now),
        ctx.sig_info.guardian_set_index == ctx.guardian_set.index,
        ctx.sig_info.hash@ == body_hash,
        !ctx.claims.is_claimed(body_hash),
    ensures
        count_present(ctx.sig_info.signatures@) == quorum_threshold(
            ctx.guardian_set.keys@.len() as int,
        ) - 1 ==> finalize_error(ctx, body_hash) == Some(ErrorCode::PostVAAConsensusFailed),
        count_present(ctx.sig_info.signatures@) == quorum_threshold(
            ctx.guardian_set.keys@.len() as int,
        ) ==> finalize_error(ctx, body_hash) is None,
{
}

} // verus!
