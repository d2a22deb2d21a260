//! The publishing fee, and the check that a transaction bundled its payment.
use vstd::prelude::*;
use crate::codec::{bytes_eq, read_le64, read_le_u64};
use crate::error::ErrorCode;
use crate::VAA_TX_FEE;

verus! {

/// Size in bytes of a stored signature set, `SignatureState`: twenty 65-byte
/// signatures, the 32-byte hash and the 4-byte guardian set index, with no
/// padding. A change to `SignatureState`'s fields changes this constant.
pub const SIGNATURE_COST: u64 = 65 * 20 + 32 + 4;

/// Size in bytes of a stored claim, `ClaimedVAA`: the 32-byte hash and the
/// 4-byte time.
pub const VAA_COST: u64 = 32 + 4;

/// Stored layout of a signature set. Its size, `SIGNATURE_COST`, enters the
/// publishing fee.
#[derive(Clone, Copy)]
pub struct SignatureState {
    /// Signatures of the guardians.
    pub signatures: [[u8; 65]; 20],
    /// Hash of the data.
    pub hash: [u8; 32],
    /// Index of the guardian set.
    pub guardian_set_index: u32,
}

/// The fee to publish a message: room for the signatures and the claim, and
/// the transaction fee of posting the VAA.
pub open spec fn transfer_fee() -> u64 {
    (SIGNATURE_COST + VAA_COST + VAA_TX_FEE) as u64
}

/// Computes the fee to publish a message.
pub fn calculate_transfer_fee() -> (r: u64)
    ensures
        r == transfer_fee(),
        r == SIGNATURE_COST + VAA_COST + VAA_TX_FEE,
{
    SIGNATURE_COST + VAA_COST + VAA_TX_FEE
}

/// An instruction of the same transaction, as the ledger reports it.
#[derive(Clone, Debug, PartialEq, Eq)]
pub struct SiblingInstruction {
    /// Program that the instruction calls.
    pub program_id: [u8; 32],
    /// Addresses of the accounts it names, in order.
    pub accounts: Vec<[u8; 32]>,
    /// Its instruction data.
    pub data: Vec<u8>,
}

/// The address of the ledger's system program: 32 zero bytes.
pub open spec fn system_program_address() -> Seq<u8> {
    Seq::new(32, |i: int| 0u8)
}

/// Relies on `solana_program::system_program::id`, declared from the base58
/// text "11111111111111111111111111111111", which is 32 zero bytes.
#[verifier::external_body]
fn system_program_id() -> (r: [u8; 32])
    ensures
        r@ == system_program_address(),
{
    solana_program::system_program::id().to_bytes()
}

/// The tag of a system transfer, as the first four bytes of its data.
pub open spec fn transfer_tag() -> Seq<u8> {
    seq![2u8, 0u8, 0u8, 0u8]
}

/// The outcome of the fee check: the instruction just before the current
/// one must be a system transfer of at least `fee` to the bridge.
pub open spec fn fee_check(
    current_index: u16,
    previous: Option<SiblingInstruction>,
    bridge_key: Seq<u8>,
    fee: u64,
) -> Result<(), ErrorCode> {
    if current_index == 0 {
        Err(ErrorCode::InvalidInstructionData)
    } else {
        match previous {
            None => Err(ErrorCode::InvalidAccountData),
            Some(ix) => if ix.program_id@ != system_program_address() {
                Err(ErrorCode::InvalidArgument)
            } else if ix.accounts@.len() != 2 {
                Err(ErrorCode::InvalidInstructionData)
            } else if ix.accounts@[1]@ != bridge_key {
                Err(ErrorCode::InvalidArgument)
            } else if ix.data@.len() != 12 {
                Err(ErrorCode::InvalidAccountData)
            } else if ix.data@.subrange(0, 4) != transfer_tag() {
                Err(ErrorCode::InvalidInstructionData)
            } else if read_le64(ix.data@.subrange(4, 12)) < fee {
                Err(ErrorCode::InsufficientFees)
            } else {
                Ok(())
            },
        }
    }
}

/// Checks that the transaction paid the fee just before the current
/// instruction. `previous` is the instruction at `current_index - 1`, or
/// `None` where the ledger could not load it.
pub fn check_fees(
    current_index: u16,
    previous: &Option<SiblingInstruction>,
    bridge_key: &[u8; 32],
    fee: u64,
) -> (r: Result<(), ErrorCode>)
    ensures
        r == fee_check(current_index, *previous, bridge_key@, fee),
{
    if current_index == 0 {
        return Err(ErrorCode::InvalidInstructionData);
    }
    let ix = match previous {
        None => return Err(ErrorCode::InvalidAccountData),
        Some(ix) => ix,
    };
    let system = system_program_id();
    if !bytes_eq(&ix.program_id, &system) {
        return Err(ErrorCode::InvalidArgument);
    }
    if ix.accounts.len() != 2 {
        return Err(ErrorCode::InvalidInstructionData);
    }
    if !bytes_eq(&ix.accounts[1], bridge_key) {
        return Err(ErrorCode::InvalidArgument);
    }
    if ix.data.len() != 12 {
        return Err(ErrorCode::InvalidAccountData);
    }
    let tag: [u8; 4] = [2, 0, 0, 0];
    if !bytes_eq(&ix.data.as_slice()[0..4], &tag) {
        assert(tag@ == transfer_tag());
        return Err(ErrorCode::InvalidInstructionData);
    }
    assert(tag@ == transfer_tag());
    let amount = read_le_u64(&ix.data.as_slice()[4..12]);
    if amount < fee {
        return Err(ErrorCode::InsufficientFees);
    }
    Ok(())
}

} // verus!
