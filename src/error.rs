//! Errors of the bridge's operations.
use vstd::prelude::*;

verus! {

/// Why an operation of the bridge was refused.
#[derive(Clone, Copy, Debug, PartialEq, Eq, Structural)]
pub enum ErrorCode {
    /// A system account's address did not match the expected one.
    InvalidSysVar,
    /// Instruction data, or the bundled fee transfer, is malformed.
    InvalidInstructionData,
    /// An account's data has the wrong shape.
    InvalidAccountData,
    /// An argument names the wrong program or account.
    InvalidArgument,
    /// The sender of a transfer holds less than the amount.
    InsufficientFunds,
    /// More guardian keys than a guardian set can hold.
    TooManyGuardians,
    /// The bundled transfer did not pay enough fees.
    InsufficientFees,
    /// The message payload is longer than allowed.
    PayloadTooLarge,
    /// The emitter did not sign the publishing transaction.
    MissingEmitterSignature,
    /// A signature set for this hash and guardian set already exists.
    SignatureSetExists,
    /// The guardian set has expired.
    PostVAAGuardianSetExpired,
    /// The signatures belong to another guardian set.
    PostVAAGuardianSetMismatch,
    /// The recomputed message hash differs from the attested one.
    PostVAAIntegrityMismatch,
    /// Too few guardians signed to reach consensus.
    PostVAAConsensusFailed,
    /// The message hash was already claimed.
    AlreadyClaimed,
}

} // verus!
