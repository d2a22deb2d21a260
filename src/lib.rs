//! Verified core of a cross-chain message bridge: guardian sets, fee-gated
//! message publication, signature collection, quorum and one-time
//! finalization of attested messages.
#![allow(deprecated)]

use vstd::prelude::*;

pub mod bridge;
pub mod codec;
pub mod consensus;
pub mod envelope;
pub mod error;
pub mod fees;
pub mod guardian;
pub mod message;
pub mod record;
pub mod signatures;

verus! {

/// Chain ID of the chain this bridge is deployed on.
pub const CHAIN_ID_SOLANA: u8 = 1;

/// Maximum number of guardians in a guardian set.
pub const MAX_LEN_GUARDIAN_KEYS: usize = 20;

/// Transaction fee of signature checks and of posting a VAA.
pub const VAA_TX_FEE: u64 = 18 * 10000;

/// Maximum size of a message payload.
pub const MAX_PAYLOAD_SIZE: usize = 400;

} // verus!
