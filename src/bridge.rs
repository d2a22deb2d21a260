//! The bridge's entry points, one per operation.
use vstd::prelude::*;
use crate::consensus::{finalize_error, finalized, post_vaa, vaa_body_hash, PostVAA, PostVAAData};
use crate::error::ErrorCode;
use crate::guardian::{
    guardian_update, initialize, Bridge, GuardianUpdate, GuardianUpdateData, Initialize,
    InitializeData,
};
use crate::message::{publish_error, publish_message, published, PostedMessage, PublishMessage, PublishMessageData};
use crate::signatures::{collect_error, merged_slot, verify_signatures, VerifySig, VerifySigsData};
use crate::MAX_LEN_GUARDIAN_KEYS;

verus! {

impl Bridge {
    /// Initializes the bridge with guardian set 0.
    pub fn new(ctx: &mut Initialize, data: InitializeData) -> (r: Result<Bridge, ErrorCode>)
        ensures
            data.initial_guardian_keys@.len() > MAX_LEN_GUARDIAN_KEYS ==> r == Err::<
                Bridge,
                ErrorCode,
            >(ErrorCode::TooManyGuardians) && *final(ctx) == *old(ctx),
            data.initial_guardian_keys@.len() <= MAX_LEN_GUARDIAN_KEYS ==> r == Ok::<
                Bridge,
                ErrorCode,
            >((Bridge { guardian_set_index: 0, config: data.config })) && final(ctx).now
                == old(ctx).now && final(ctx).guardian_set.index == 0
                && final(ctx).guardian_set.keys@ == data.initial_guardian_keys@
                && final(ctx).guardian_set.creation_time == old(ctx).now
                && final(ctx).guardian_set.expiration_time == 0 && final(ctx).guardian_set.wf(),
    {
        initialize(ctx, data.len_guardians, data.initial_guardian_keys, data.config)
    }

    /// Publishes a message; see `publish_message`.
    pub fn publish_message(&mut self, ctx: &PublishMessage, data: PublishMessageData) -> (r: Result<
        PostedMessage,
        ErrorCode,
    >)
        ensures
            *final(self) == *old(self),
            match publish_error(*ctx, data.payload@.len()) {
                Some(e) => r == Err::<PostedMessage, ErrorCode>(e),
                None => r is Ok && published(*ctx, data.nonce, data.payload@, r->Ok_0),
            },
    {
        publish_message(ctx, data.nonce, data.payload)
    }

    /// Finalizes a VAA; see `post_vaa`.
    pub fn post_vaa(&mut self, ctx: &mut PostVAA, data: &PostVAAData) -> (r: Result<(), ErrorCode>)
        requires
            old(ctx).guardian_set.wf(),
        ensures
            *final(self) == *old(self),
            match finalize_error(*old(ctx), vaa_body_hash(*data)) {
                Some(e) => r == Err::<(), ErrorCode>(e) && *final(ctx) == *old(ctx),
                None => r is Ok && exists|h: [u8; 32]|
                    h@ == vaa_body_hash(*data) && #[trigger] finalized(*old(ctx), *final(ctx), data.version, h),
            },
    {
        post_vaa(ctx, data)
    }

    /// Collects guardian signatures; see `verify_signatures`.
    pub fn verify_signatures(&mut self, ctx: &mut VerifySig, data: VerifySigsData) -> (r: Result<
        (),
        ErrorCode,
    >)
        ensures
            *final(self) == *old(self),
            final(ctx).guardian_set == old(ctx).guardian_set,
            final(ctx).attestations == old(ctx).attestations,
            match collect_error(*old(ctx), data.hash@, data.signers@, data.initial_creation) {
                Some(e) => r == Err::<(), ErrorCode>(e) && final(ctx).signatures == old(ctx).signatures,
                None => r is Ok && final(ctx).signatures is Some && {
                    let s = final(ctx).signatures->Some_0;
                    &&& s.hash == data.hash
                    &&& s.guardian_set_index == old(ctx).guardian_set.index
                    &&& s.signatures@.len() == MAX_LEN_GUARDIAN_KEYS
                    &&& forall|i: int|
                        0 <= i < MAX_LEN_GUARDIAN_KEYS ==> s.signatures@[i]@ == merged_slot(
                            old(ctx).signatures,
                            data.signers@,
                            old(ctx).attestations@,
                            i,
                        )
                },
            },
    {
        verify_signatures(ctx, data.hash, data.signers, data.initial_creation)
    }

    /// Guardian set rotation: declared, and as yet changes nothing.
    pub fn process_guardian_update(&mut self, ctx: &GuardianUpdate, data: GuardianUpdateData) -> (r: Result<
        (),
        ErrorCode,
    >)
        ensures
            r == Ok::<(), ErrorCode>(()),
            *final(self) == *old(self),
    {
        guardian_update(self, ctx, data)
    }
}

} // verus!
