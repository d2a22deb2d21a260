//! Publication of outbound messages, gated on a bundled fee payment.
use vstd::prelude::*;
use crate::error::ErrorCode;
use crate::fees::{calculate_transfer_fee, check_fees, fee_check, transfer_fee, SiblingInstruction};
use crate::{CHAIN_ID_SOLANA, MAX_PAYLOAD_SIZE};

verus! {

/// Record of a published message.
#[derive(Clone, Debug, PartialEq, Eq)]
pub struct PostedMessage {
    /// Version of the VAA that finalized this message, once finalized.
    pub vaa_version: u8,
    /// Time the message was finalized, once finalized.
    pub vaa_time: u32,
    /// Account where the signatures of the finalizing VAA are stored.
    pub vaa_signature_account: [u8; 32],
    /// Time the message was published.
    pub submission_time: u32,
    /// Nonce chosen by the emitter.
    pub nonce: u32,
    /// Chain of the emitter.
    pub emitter_chain: u8,
    /// Address of the emitter.
    pub emitter_address: [u8; 32],
    /// Message payload.
    pub payload: Vec<u8>,
}

/// What publication reads from the ledger.
#[derive(Clone, Debug)]
pub struct PublishMessage {
    /// Address of the emitter.
    pub emitter: [u8; 32],
    /// Whether the emitter signed the transaction.
    pub emitter_signed: bool,
    /// Address of the bridge, where fees are paid.
    pub bridge_key: [u8; 32],
    /// Position of the publishing instruction in its transaction.
    pub current_index: u16,
    /// The instruction just before it, where the ledger could load one.
    pub previous_instruction: Option<SiblingInstruction>,
    /// Current time.
    pub now: u32,
}

/// Arguments of publication.
#[derive(Clone, Debug)]
pub struct PublishMessageData {
    /// Unique nonce for this message.
    pub nonce: u32,
    /// Message payload as an arbitrary string of bytes.
    pub payload: Vec<u8>,
}

/// The record of a freshly published message.
pub open spec fn published(
    ctx: PublishMessage,
    message_nonce: u32,
    payload: Seq<u8>,
    m: PostedMessage,
) -> bool {
    &&& m.vaa_version == 0
    &&& m.vaa_time == 0
    &&& m.vaa_signature_account@ == Seq::new(32, |i: int| 0u8)
    &&& m.submission_time == ctx.now
    &&& m.nonce == message_nonce
    &&& m.emitter_chain == CHAIN_ID_SOLANA
    &&& m.emitter_address == ctx.emitter
    &&& m.payload@ == payload
}

/// The error of publication, checked in order: fee, payload size, emitter
/// signature; `None` where it succeeds.
pub open spec fn publish_error(ctx: PublishMessage, payload_len: nat) -> Option<ErrorCode> {
    match fee_check(ctx.current_index, ctx.previous_instruction, ctx.bridge_key@, transfer_fee()) {
        Err(e) => Some(e),
        Ok(_) => if payload_len > MAX_PAYLOAD_SIZE {
            Some(ErrorCode::PayloadTooLarge)
        } else if !ctx.emitter_signed {
            Some(ErrorCode::MissingEmitterSignature)
        } else {
            None
        },
    }
}

/// Publishes a message from the emitter, once the transaction has paid the
/// fee, and returns the record to store.
pub fn publish_message(ctx: &PublishMessage, message_nonce: u32, payload: Vec<u8>) -> (r: Result<
    PostedMessage,
    ErrorCode,
>)
    ensures
        match publish_error(*ctx, payload@.len()) {
            Some(e) => r == Err::<PostedMessage, ErrorCode>(e),
            None => r is Ok && published(*ctx, message_nonce, payload@, r->Ok_0),
        },
{
    let fee = calculate_transfer_fee();
    match check_fees(ctx.current_index, &ctx.previous_instruction, &ctx.bridge_key, fee) {
        Err(e) => return Err(e),
        Ok(()) => {},
    }
    if payload.len() > MAX_PAYLOAD_SIZE {
        return Err(ErrorCode::PayloadTooLarge);
    }
    if !ctx.emitter_signed {
        return Err(ErrorCode::MissingEmitterSignature);
    }
    let m = PostedMessage {
        vaa_version: 0,
        vaa_time: 0,
        vaa_signature_account: [0u8; 32],
        submission_time: ctx.now,
        nonce: message_nonce,
        emitter_chain: CHAIN_ID_SOLANA,
        emitter_address: ctx.emitter,
        payload,
    };
    assert(m.vaa_signature_account@ =~= Seq::new(32, |i: int| 0u8));
    Ok(m)
}

} // verus!
