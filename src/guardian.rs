//! Guardian sets: the committee whose attestations finalize messages.
use vstd::prelude::*;
use crate::error::ErrorCode;
use crate::MAX_LEN_GUARDIAN_KEYS;

verus! {

/// Bridge configuration, set once upon initialization.
#[derive(Clone, Copy, Debug, PartialEq, Eq, Structural)]
pub struct BridgeConfig {
    /// Period for which a superseded guardian set stays valid.
    pub guardian_set_expiration_time: u32,
    /// Fee schedule knob.
    pub fee: u64,
}

/// A versioned committee of guardians.
#[derive(Clone, Debug, PartialEq, Eq)]
pub struct GuardianSetInfo {
    /// Version number of this guardian set.
    pub index: u32,
    /// Public key hashes of the guardians.
    pub keys: Vec<[u8; 20]>,
    /// Creation time.
    pub creation_time: u32,
    /// Time from which attestations of this set are refused; zero for never.
    pub expiration_time: u32,
}

impl GuardianSetInfo {
    /// A guardian set holds at most the maximum number of keys.
    pub open spec fn wf(&self) -> bool {
        self.keys@.len() <= MAX_LEN_GUARDIAN_KEYS
    }

    /// The set still accepts attestations at time `now`.
    pub open spec fn active_at(&self, now: u32) -> bool {
        self.expiration_time == 0 || now < self.expiration_time
    }

    /// Whether the set still accepts attestations at time `now`.
    pub fn is_active(&self, now: u32) -> (r: bool)
        ensures
            r == self.active_at(now),
    {
        self.expiration_time == 0 || now < self.expiration_time
    }
}

/// What initialization reads from the ledger, and the guardian set it writes.
#[derive(Clone, Debug)]
pub struct Initialize {
    /// Current time.
    pub now: u32,
    /// The guardian set record, filled by initialization.
    pub guardian_set: GuardianSetInfo,
}

/// Arguments of initialization.
#[derive(Clone, Debug)]
pub struct InitializeData {
    /// Number of initial guardians, as declared by the caller.
    pub len_guardians: u8,
    /// Guardians that are allowed to attest.
    pub initial_guardian_keys: Vec<[u8; 20]>,
    /// Configuration of the bridge.
    pub config: BridgeConfig,
}

/// What a guardian set update reads from the ledger.
#[derive(Clone, Copy, Debug)]
pub struct GuardianUpdate {
    /// Current time.
    pub now: u32,
}

/// Arguments of a guardian set update.
#[derive(Clone, Copy, Debug)]
pub struct GuardianUpdateData {
    pub dummy: u32,
}

/// The bridge's own state: the current guardian set index and its configuration.
#[derive(Clone, Copy, Debug, PartialEq, Eq, Structural)]
pub struct Bridge {
    /// Index of the current guardian set.
    pub guardian_set_index: u32,
    /// Configuration, set once upon initialization.
    pub config: BridgeConfig,
}

/// Refuses more guardian keys than a guardian set can hold.
pub fn check_keys(keys: &Vec<[u8; 20]>) -> (r: Result<(), ErrorCode>)
    ensures
        r == (if keys@.len() > MAX_LEN_GUARDIAN_KEYS {
            Err(ErrorCode::TooManyGuardians)
        } else {
            Ok(())
        }),
{
    if keys.len() > MAX_LEN_GUARDIAN_KEYS {
        return Err(ErrorCode::TooManyGuardians);
    }
    Ok(())
}

/// Creates guardian set 0 from the initial keys, created now and never
/// expiring, and the bridge state that points at it.
pub fn initialize(
    ctx: &mut Initialize,
    len_guardians: u8,
    initial_guardian_keys: Vec<[u8; 20]>,
    config: BridgeConfig,
) -> (r: Result<Bridge, ErrorCode>)
    ensures
        initial_guardian_keys@.len() > MAX_LEN_GUARDIAN_KEYS ==> r == Err::<Bridge, ErrorCode>(
            ErrorCode::TooManyGuardians,
        ) && *final(ctx) == *old(ctx),
        initial_guardian_keys@.len() <= MAX_LEN_GUARDIAN_KEYS ==> r == Ok::<Bridge, ErrorCode>(
            (Bridge { guardian_set_index: 0, config }),
        ) && final(ctx).now == old(ctx).now && final(ctx).guardian_set.index == 0
            && final(ctx).guardian_set.keys@ == initial_guardian_keys@
            && final(ctx).guardian_set.creation_time == old(ctx).now
            && final(ctx).guardian_set.expiration_time == 0 && final(ctx).guardian_set.wf(),
{
    match check_keys(&initial_guardian_keys) {
        Err(e) => return Err(e),
        Ok(()) => {},
    }
    let index: u32 = 0;
    ctx.guardian_set = GuardianSetInfo {
        index,
        keys: initial_guardian_keys,
        creation_time: ctx.now,
        expiration_time: 0,
    };
    Ok(Bridge { guardian_set_index: index, config })
}

/// Refuses a guardian set that has expired at time `now`.
pub fn check_active(guardian_set: &GuardianSetInfo, now: u32) -> (r: Result<(), ErrorCode>)
    ensures
        r == (if guardian_set.active_at(now) {
            Ok(())
        } else {
            Err(ErrorCode::PostVAAGuardianSetExpired)
        }),
{
    if !guardian_set.is_active(now) {
        return Err(ErrorCode::PostVAAGuardianSetExpired);
    }
    Ok(())
}

/// Guardian set rotation: declared, and as yet changes nothing.
pub fn guardian_update(
    bridge: &mut Bridge,
    ctx: &GuardianUpdate,
    data: GuardianUpdateData,
) -> (r: Result<(), ErrorCode>)
    ensures
        r == Ok::<(), ErrorCode>(()),
        *final(bridge) == *old(bridge),
{
    Ok(())
}

} // verus!

verus! {

/// A guardian set that expires at time `t` is expired at `t` itself and
/// still live one second before.
pub proof fn lemma_expiry_boundary(gs: GuardianSetInfo, t: u32)
    requires
        gs.expiration_time == t,
        t > 0,
    ensures
        !gs.active_at(t),
        gs.active_at((t - 1) as u32),
{
}

} // verus!
