use anchor_bridge::codec::{canonical_hash, message_body};
use anchor_bridge::consensus::{
    required_consensus_count, transfer_sol, ClaimLedger, ClaimedVAA, PostVAA, PostVAAData,
    MIN_BRIDGE_BALANCE,
};
use anchor_bridge::error::ErrorCode;
use anchor_bridge::fees::{calculate_transfer_fee, check_fees, SiblingInstruction};
use anchor_bridge::guardian::{
    initialize, Bridge, BridgeConfig, GuardianSetInfo, GuardianUpdate, GuardianUpdateData,
    Initialize, InitializeData,
};
use anchor_bridge::message::{publish_message, PostedMessage, PublishMessage, PublishMessageData};
use anchor_bridge::record::{claim_to_bytes, guardian_set_to_bytes, message_to_bytes, signatures_to_bytes};
use anchor_bridge::signatures::{
    attestation_from_instruction, signature_count, verify_signatures, Signatures, VerifySig,
};
use anchor_bridge::{CHAIN_ID_SOLANA, VAA_TX_FEE};
use sha3::Digest;

const TREASURY: [u8; 32] = [9; 32];
const EMITTER: [u8; 32] = [5; 32];

fn transfer(amount: u64) -> SiblingInstruction {
    let mut data = vec![2, 0, 0, 0];
    data.extend_from_slice(&amount.to_le_bytes());
    SiblingInstruction { program_id: [0; 32], accounts: vec![[1; 32], TREASURY], data }
}

fn publish_ctx(previous: Option<SiblingInstruction>, current_index: u16) -> PublishMessage {
    PublishMessage {
        emitter: EMITTER,
        emitter_signed: true,
        bridge_key: TREASURY,
        current_index,
        previous_instruction: previous,
        now: 1000,
    }
}

fn guardian_set(n: usize, expiration_time: u32) -> GuardianSetInfo {
    GuardianSetInfo { index: 0, keys: vec![[3; 20]; n], creation_time: 0, expiration_time }
}

fn signed_slots(present: usize) -> Vec<[u8; 32]> {
    let mut v = vec![[0u8; 32]; 20];
    for slot in v.iter_mut().take(present) {
        *slot = [7; 32];
    }
    v
}

fn empty_message() -> PostedMessage {
    PostedMessage {
        vaa_version: 0,
        vaa_time: 0,
        vaa_signature_account: [0; 32],
        submission_time: 1000,
        nonce: 7,
        emitter_chain: CHAIN_ID_SOLANA,
        emitter_address: EMITTER,
        payload: b"hi".to_vec(),
    }
}

fn vaa() -> PostVAAData {
    PostVAAData {
        version: 1,
        guardian_set_index: 0,
        signatures: vec![],
        timestamp: 1000,
        nonce: 7,
        emitter_chain: CHAIN_ID_SOLANA,
        emitter_address: EMITTER,
        payload: b"hi".to_vec(),
    }
}

fn vaa_hash(v: &PostVAAData) -> [u8; 32] {
    canonical_hash(v.timestamp, v.nonce, v.emitter_chain, &v.emitter_address, &v.payload)
}

fn post_ctx(n: usize, present: usize, expiration_time: u32, now: u32) -> PostVAA {
    PostVAA {
        guardian_set: guardian_set(n, expiration_time),
        sig_info: Signatures { signatures: signed_slots(present), hash: vaa_hash(&vaa()), guardian_set_index: 0 },
        sig_account: [4; 32],
        message: empty_message(),
        claims: ClaimLedger::new(),
        bridge_lamports: 0,
        payer_lamports: 0,
        now,
    }
}

fn threshold(n: usize) -> usize {
    required_consensus_count(n) as usize
}

#[test]
fn quorum_table_matches() {
    let expected = [0u16, 0, 1, 1, 2, 2, 3, 4, 4, 5, 6, 6, 7, 7, 8, 9, 9, 10, 10, 11, 12];
    for n in 0..=20usize {
        assert_eq!(required_consensus_count(n), expected[n]);
    }
    assert_eq!(required_consensus_count(1), 0);
    assert_eq!(required_consensus_count(3), 1);
    assert_eq!(required_consensus_count(19), 11);
    assert_eq!(required_consensus_count(20), 12);
}

#[test]
fn message_body_layout() {
    let body = message_body(0x01020304, 0x0a0b0c0d, 1, &[0xee; 32], b"hi");
    let mut expected = vec![1, 2, 3, 4, 0x0a, 0x0b, 0x0c, 0x0d, 1];
    expected.extend_from_slice(&[0xee; 32]);
    expected.extend_from_slice(b"hi");
    assert_eq!(body, expected);
}

#[test]
fn canonical_hash_is_keccak_of_body() {
    let body = message_body(1000, 7, 1, &EMITTER, b"hi");
    let expected: [u8; 32] = sha3::Keccak256::digest(&body).into();
    let h = canonical_hash(1000, 7, 1, &EMITTER, b"hi");
    assert_eq!(h, expected);
    assert_ne!(h.to_vec(), body[..32].to_vec());
}

#[test]
fn canonical_hash_deterministic_and_sensitive() {
    let h = canonical_hash(1000, 7, 1, &EMITTER, b"hi");
    assert_eq!(h, canonical_hash(1000, 7, 1, &EMITTER, b"hi"));
    assert_ne!(h, canonical_hash(1000, 7, 1, &EMITTER, b"hj"));
    let mut other = EMITTER;
    other[31] = 6;
    assert_ne!(h, canonical_hash(1000, 7, 1, &other, b"hi"));
    assert_ne!(h, canonical_hash(1001, 7, 1, &EMITTER, b"hi"));
    assert_ne!(h, canonical_hash(1000, 8, 1, &EMITTER, b"hi"));
    assert_ne!(h, canonical_hash(1000, 7, 2, &EMITTER, b"hi"));
}

#[test]
fn initialize_creates_set_zero() {
    let mut ctx = Initialize { now: 55, guardian_set: guardian_set(0, 9) };
    let config = BridgeConfig { guardian_set_expiration_time: 100, fee: 3 };
    let bridge = initialize(&mut ctx, 3, vec![[1; 20], [2; 20], [3; 20]], config).unwrap();
    assert_eq!(bridge, Bridge { guardian_set_index: 0, config });
    assert_eq!(ctx.guardian_set.index, 0);
    assert_eq!(ctx.guardian_set.keys.len(), 3);
    assert_eq!(ctx.guardian_set.creation_time, 55);
    assert_eq!(ctx.guardian_set.expiration_time, 0);
}

#[test]
fn initialize_refuses_too_many_keys() {
    let mut ctx = Initialize { now: 55, guardian_set: guardian_set(0, 9) };
    let config = BridgeConfig { guardian_set_expiration_time: 100, fee: 3 };
    let data = InitializeData { len_guardians: 21, initial_guardian_keys: vec![[1; 20]; 21], config };
    assert_eq!(Bridge::new(&mut ctx, data), Err(ErrorCode::TooManyGuardians));
    assert_eq!(ctx.guardian_set, guardian_set(0, 9));
    let data = InitializeData { len_guardians: 20, initial_guardian_keys: vec![[1; 20]; 20], config };
    assert!(Bridge::new(&mut ctx, data).is_ok());
}

#[test]
fn guardian_update_changes_nothing() {
    let mut bridge = Bridge { guardian_set_index: 4, config: BridgeConfig { guardian_set_expiration_time: 1, fee: 2 } };
    let before = bridge;
    assert_eq!(bridge.process_guardian_update(&GuardianUpdate { now: 1 }, GuardianUpdateData { dummy: 0 }), Ok(()));
    assert_eq!(bridge, before);
}

#[test]
fn expiry_boundary() {
    let gs = guardian_set(3, 500);
    assert!(!gs.is_active(500));
    assert!(gs.is_active(499));
    assert!(guardian_set(3, 0).is_active(u32::MAX));
}

#[test]
fn transfer_fee_value() {
    assert_eq!(calculate_transfer_fee(), 1336 + 36 + VAA_TX_FEE);
}

#[test]
fn fee_check_accepts_exact_fee() {
    let fee = calculate_transfer_fee();
    assert_eq!(check_fees(1, &Some(transfer(fee)), &TREASURY, fee), Ok(()));
    assert_eq!(check_fees(1, &Some(transfer(fee - 1)), &TREASURY, fee), Err(ErrorCode::InsufficientFees));
}

#[test]
fn fee_check_errors() {
    let fee = 10;
    assert_eq!(check_fees(0, &Some(transfer(fee)), &TREASURY, fee), Err(ErrorCode::InvalidInstructionData));
    assert_eq!(check_fees(1, &None, &TREASURY, fee), Err(ErrorCode::InvalidAccountData));
    let mut t = transfer(fee);
    t.program_id = [1; 32];
    assert_eq!(check_fees(1, &Some(t), &TREASURY, fee), Err(ErrorCode::InvalidArgument));
    let mut t = transfer(fee);
    t.accounts.push([0; 32]);
    assert_eq!(check_fees(1, &Some(t), &TREASURY, fee), Err(ErrorCode::InvalidInstructionData));
    assert_eq!(check_fees(1, &Some(transfer(fee)), &[8; 32], fee), Err(ErrorCode::InvalidArgument));
    let mut t = transfer(fee);
    t.data.push(0);
    assert_eq!(check_fees(1, &Some(t), &TREASURY, fee), Err(ErrorCode::InvalidAccountData));
    let mut t = transfer(fee);
    t.data[0] = 3;
    assert_eq!(check_fees(1, &Some(t), &TREASURY, fee), Err(ErrorCode::InvalidInstructionData));
}

#[test]
fn publish_without_transfer_creates_nothing() {
    let ctx = publish_ctx(None, 0);
    assert_eq!(publish_message(&ctx, 7, b"hi".to_vec()), Err(ErrorCode::InvalidInstructionData));
    let ctx = publish_ctx(None, 1);
    assert_eq!(publish_message(&ctx, 7, b"hi".to_vec()), Err(ErrorCode::InvalidAccountData));
    let mut not_transfer = transfer(calculate_transfer_fee());
    not_transfer.data[0] = 0;
    let ctx = publish_ctx(Some(not_transfer), 1);
    assert_eq!(publish_message(&ctx, 7, b"hi".to_vec()), Err(ErrorCode::InvalidInstructionData));
}

#[test]
fn publish_payload_bound() {
    let ctx = publish_ctx(Some(transfer(calculate_transfer_fee())), 1);
    assert_eq!(publish_message(&ctx, 1, vec![0; 401]), Err(ErrorCode::PayloadTooLarge));
    assert!(publish_message(&ctx, 1, vec![0; 400]).is_ok());
}

#[test]
fn publish_needs_emitter_signature() {
    let mut ctx = publish_ctx(Some(transfer(calculate_transfer_fee())), 1);
    ctx.emitter_signed = false;
    assert_eq!(publish_message(&ctx, 1, vec![1]), Err(ErrorCode::MissingEmitterSignature));
}

#[test]
fn publish_fills_record() {
    let ctx = publish_ctx(Some(transfer(calculate_transfer_fee())), 2);
    let mut bridge = Bridge { guardian_set_index: 0, config: BridgeConfig { guardian_set_expiration_time: 0, fee: 0 } };
    let m = bridge.publish_message(&ctx, PublishMessageData { nonce: 7, payload: b"hi".to_vec() }).unwrap();
    assert_eq!(m, empty_message());
}

#[test]
fn signature_count_ignores_empty_slots() {
    let mut v = signed_slots(3);
    let mut partial = [0u8; 32];
    partial[31] = 1;
    v[10] = partial;
    assert_eq!(signature_count(&v), 4);
    assert_eq!(signature_count(&vec![[0; 32]; 20]), 0);
}

fn verify_ctx(n: usize, existing: Option<Signatures>) -> VerifySig {
    VerifySig { guardian_set: guardian_set(n, 0), signatures: existing, attestations: vec![[11; 32], [12; 32], [0; 32]] }
}

fn signers(pairs: &[(usize, i8)]) -> [i8; 20] {
    let mut s = [-1i8; 20];
    for (slot, ix) in pairs {
        s[*slot] = *ix;
    }
    s
}

#[test]
fn collect_creates_and_merges() {
    let h = [6; 32];
    let mut ctx = verify_ctx(3, None);
    assert_eq!(verify_signatures(&mut ctx, h, signers(&[(0, 1)]), true), Ok(()));
    let s = ctx.signatures.clone().unwrap();
    assert_eq!(s.hash, h);
    assert_eq!(s.signatures[0], [12; 32]);
    assert_eq!(signature_count(&s.signatures), 1);
    assert_eq!(verify_signatures(&mut ctx, h, signers(&[(1, 0)]), false), Ok(()));
    let s = ctx.signatures.clone().unwrap();
    assert_eq!(s.signatures[0], [12; 32]);
    assert_eq!(s.signatures[1], [11; 32]);
    assert_eq!(signature_count(&s.signatures), 2);
}

#[test]
fn collect_refuses_empty_attestation() {
    let h = [6; 32];
    let mut ctx = verify_ctx(3, None);
    assert_eq!(verify_signatures(&mut ctx, h, signers(&[(0, 2)]), true), Err(ErrorCode::InvalidInstructionData));
    assert_eq!(ctx.signatures, None);
    verify_signatures(&mut ctx, h, signers(&[(0, 1)]), true).unwrap();
    let before = ctx.signatures.clone();
    assert_eq!(verify_signatures(&mut ctx, h, signers(&[(1, 0), (0, 2)]), false), Err(ErrorCode::InvalidInstructionData));
    assert_eq!(ctx.signatures, before);
}

#[test]
fn attestation_read_from_instruction_data() {
    let mut data = vec![1u8, 14, 0];
    data.extend_from_slice(&[0xaa; 11]);
    data.extend((0..40u8).map(|b| b + 1));
    let a = attestation_from_instruction(&data).unwrap();
    let expected: Vec<u8> = (1..=32u8).collect();
    assert_eq!(a.to_vec(), expected);
    assert_eq!(attestation_from_instruction(&[1, 0]), None);
    assert_eq!(attestation_from_instruction(&[1, 40, 0, 0]), None);
    let mut at_end = vec![1u8, 3, 0];
    at_end.extend_from_slice(&[9; 32]);
    assert_eq!(attestation_from_instruction(&at_end), Some([9; 32]));
    assert_eq!(attestation_from_instruction(&at_end[..34]), None);
}

#[test]
fn record_encodings() {
    let c = ClaimedVAA { hash: [2; 32], vaa_time: 0x01020304 };
    let mut expected = vec![2u8; 32];
    expected.extend_from_slice(&[4, 3, 2, 1]);
    assert_eq!(claim_to_bytes(&c), expected);

    let m = empty_message();
    let b = message_to_bytes(&m);
    assert_eq!(b.len(), 1 + 4 + 32 + 4 + 4 + 1 + 32 + 4 + 2);
    assert_eq!(&b[37..41], &1000u32.to_le_bytes());
    assert_eq!(&b[41..45], &7u32.to_le_bytes());
    assert_eq!(b[45], CHAIN_ID_SOLANA);
    assert_eq!(&b[46..78], &EMITTER);
    assert_eq!(&b[78..82], &[2, 0, 0, 0]);
    assert_eq!(&b[82..], b"hi");

    let s = Signatures { signatures: vec![[1; 32], [0; 32]], hash: [3; 32], guardian_set_index: 5 };
    let b = signatures_to_bytes(&s);
    assert_eq!(&b[..4], &[2, 0, 0, 0]);
    assert_eq!(&b[4..36], &[1; 32]);
    assert_eq!(&b[36..68], &[0; 32]);
    assert_eq!(&b[68..100], &[3; 32]);
    assert_eq!(&b[100..], &[5, 0, 0, 0]);

    let g = GuardianSetInfo { index: 1, keys: vec![[7; 20]], creation_time: 9, expiration_time: 0 };
    let b = guardian_set_to_bytes(&g);
    let mut expected = vec![1, 0, 0, 0, 1, 0, 0, 0];
    expected.extend_from_slice(&[7; 20]);
    expected.extend_from_slice(&[9, 0, 0, 0, 0, 0, 0, 0]);
    assert_eq!(b, expected);
}

#[test]
fn collect_errors() {
    let h = [6; 32];
    let mut ctx = verify_ctx(3, None);
    verify_signatures(&mut ctx, h, signers(&[(0, 0)]), true).unwrap();
    let before = ctx.signatures.clone();
    assert_eq!(verify_signatures(&mut ctx, h, signers(&[(1, 0)]), true), Err(ErrorCode::SignatureSetExists));
    assert_eq!(verify_signatures(&mut ctx, [1; 32], signers(&[(1, 0)]), false), Err(ErrorCode::InvalidArgument));
    assert_eq!(verify_signatures(&mut ctx, h, signers(&[(3, 0)]), false), Err(ErrorCode::InvalidInstructionData));
    assert_eq!(verify_signatures(&mut ctx, h, signers(&[(1, 3)]), false), Err(ErrorCode::InvalidInstructionData));
    assert_eq!(ctx.signatures, before);
    let mut short = verify_ctx(3, Some(Signatures { signatures: vec![[0; 32]; 3], hash: h, guardian_set_index: 0 }));
    assert_eq!(verify_signatures(&mut short, h, signers(&[]), false), Err(ErrorCode::InvalidAccountData));
}

#[test]
fn finalize_succeeds_and_records() {
    let mut ctx = post_ctx(3, 1, 0, 2000);
    let data = vaa();
    assert_eq!(anchor_bridge::consensus::post_vaa(&mut ctx, &data), Ok(()));
    assert_eq!(ctx.message.vaa_version, 1);
    assert_eq!(ctx.message.vaa_time, 2000);
    assert_eq!(ctx.message.vaa_signature_account, [4; 32]);
    assert_eq!(ctx.claims.claims.len(), 1);
    assert_eq!(ctx.claims.claims[0].hash, vaa_hash(&data));
    assert_eq!(ctx.claims.claims[0].vaa_time, 2000);
}

#[test]
fn finalize_twice_is_already_claimed() {
    let mut ctx = post_ctx(3, 2, 0, 2000);
    let data = vaa();
    assert_eq!(anchor_bridge::consensus::post_vaa(&mut ctx, &data), Ok(()));
    let before_claims = ctx.claims.claims.clone();
    assert_eq!(anchor_bridge::consensus::post_vaa(&mut ctx, &data), Err(ErrorCode::AlreadyClaimed));
    assert_eq!(ctx.claims.claims, before_claims);
}

#[test]
fn finalize_quorum_boundary() {
    for n in [3usize, 7, 19, 20] {
        let t = threshold(n);
        let mut short = post_ctx(n, t - 1, 0, 2000);
        assert_eq!(anchor_bridge::consensus::post_vaa(&mut short, &vaa()), Err(ErrorCode::PostVAAConsensusFailed));
        assert_eq!(short.claims.claims.len(), 0);
        let mut enough = post_ctx(n, t, 0, 2000);
        assert_eq!(anchor_bridge::consensus::post_vaa(&mut enough, &vaa()), Ok(()));
    }
}

#[test]
fn finalize_expired_set() {
    let mut ctx = post_ctx(3, 3, 2000, 2000);
    assert_eq!(anchor_bridge::consensus::post_vaa(&mut ctx, &vaa()), Err(ErrorCode::PostVAAGuardianSetExpired));
    let mut ctx = post_ctx(3, 3, 2000, 1999);
    assert_eq!(anchor_bridge::consensus::post_vaa(&mut ctx, &vaa()), Ok(()));
}

#[test]
fn finalize_wrong_set_and_wrong_hash() {
    let mut ctx = post_ctx(3, 3, 0, 2000);
    ctx.sig_info.guardian_set_index = 1;
    assert_eq!(anchor_bridge::consensus::post_vaa(&mut ctx, &vaa()), Err(ErrorCode::PostVAAGuardianSetMismatch));
    let mut ctx = post_ctx(3, 3, 0, 2000);
    let mut other = vaa();
    other.payload = b"ho".to_vec();
    assert_eq!(anchor_bridge::consensus::post_vaa(&mut ctx, &other), Err(ErrorCode::PostVAAIntegrityMismatch));
    assert_eq!(ctx.message, empty_message());
}

#[test]
fn finalize_refunds_when_bridge_can_afford() {
    let mut ctx = post_ctx(3, 3, 0, 2000);
    ctx.bridge_lamports = MIN_BRIDGE_BALANCE + VAA_TX_FEE + 1;
    ctx.payer_lamports = 5;
    assert_eq!(anchor_bridge::consensus::post_vaa(&mut ctx, &vaa()), Ok(()));
    assert_eq!(ctx.bridge_lamports, MIN_BRIDGE_BALANCE + 1);
    assert_eq!(ctx.payer_lamports, 5 + VAA_TX_FEE);
    let mut ctx = post_ctx(3, 3, 0, 2000);
    ctx.bridge_lamports = MIN_BRIDGE_BALANCE + VAA_TX_FEE;
    assert_eq!(anchor_bridge::consensus::post_vaa(&mut ctx, &vaa()), Ok(()));
    assert_eq!(ctx.bridge_lamports, MIN_BRIDGE_BALANCE + VAA_TX_FEE);
    assert_eq!(ctx.payer_lamports, 0);
}

#[test]
fn transfer_sol_moves_or_fails() {
    let (mut a, mut b) = (10u64, 1u64);
    assert_eq!(transfer_sol(&mut a, &mut b, 4), Ok(()));
    assert_eq!((a, b), (6, 5));
    assert_eq!(transfer_sol(&mut a, &mut b, 7), Err(ErrorCode::InsufficientFunds));
    let mut full = u64::MAX;
    assert_eq!(transfer_sol(&mut a, &mut full, 1), Err(ErrorCode::InvalidArgument));
    assert_eq!((a, full), (6, u64::MAX));
}

#[test]
fn end_to_end_three_guardians() {
    let mut init = Initialize { now: 100, guardian_set: guardian_set(0, 0) };
    let config = BridgeConfig { guardian_set_expiration_time: 0, fee: 0 };
    let data = InitializeData { len_guardians: 3, initial_guardian_keys: vec![[1; 20], [2; 20], [3; 20]], config };
    let mut bridge = Bridge::new(&mut init, data).unwrap();
    let gs = init.guardian_set.clone();

    let ctx = publish_ctx(Some(transfer(calculate_transfer_fee())), 1);
    let message = bridge.publish_message(&ctx, PublishMessageData { nonce: 7, payload: b"hi".to_vec() }).unwrap();
    let h = canonical_hash(message.submission_time, message.nonce, message.emitter_chain, &message.emitter_address, &message.payload);

    let mut collect = VerifySig { guardian_set: gs.clone(), signatures: None, attestations: vec![[21; 32], [22; 32]] };
    let sig_data = anchor_bridge::signatures::VerifySigsData { hash: h, signers: signers(&[(0, 0), (2, 1)]), initial_creation: true };
    bridge.verify_signatures(&mut collect, sig_data).unwrap();
    let sigs = collect.signatures.unwrap();
    assert_eq!(signature_count(&sigs.signatures), 2);
    assert_eq!(required_consensus_count(3), 1);

    let data = PostVAAData {
        version: 1,
        guardian_set_index: gs.index,
        signatures: vec![],
        timestamp: message.submission_time,
        nonce: 7,
        emitter_chain: message.emitter_chain,
        emitter_address: message.emitter_address,
        payload: message.payload.clone(),
    };
    let mut post = PostVAA {
        guardian_set: gs,
        sig_info: sigs,
        sig_account: [4; 32],
        message,
        claims: ClaimLedger::new(),
        bridge_lamports: 0,
        payer_lamports: 0,
        now: 1500,
    };
    assert_eq!(bridge.post_vaa(&mut post, &data), Ok(()));
    assert_eq!(post.message.vaa_time, 1500);
    assert_eq!(bridge.post_vaa(&mut post, &data), Err(ErrorCode::AlreadyClaimed));
}
