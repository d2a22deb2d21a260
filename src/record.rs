//! Stored layouts of the bridge's records: fields in order, integers
//! little-endian, fixed-size byte arrays as they are, and a byte or slot
//! list as its little-endian `u32` length followed by its items.
use byteorder::ByteOrder;
use vstd::prelude::*;
use crate::codec::append_bytes;
use crate::consensus::ClaimedVAA;
use crate::guardian::GuardianSetInfo;
use crate::message::PostedMessage;
use crate::signatures::Signatures;

verus! {

/// The four little-endian bytes of `n`.
pub open spec fn le32(n: u32) -> Seq<u8> {
    seq![(n % 256) as u8, ((n / 0x100) % 256) as u8, ((n / 0x10000) % 256) as u8, (n / 0x1000000) as u8]
}

/// Relies on `byteorder::LittleEndian::write_u32`: the four bytes of `n`,
/// least significant first.
#[verifier::external_body]
fn write_le_u32(n: u32) -> (r: [u8; 4])
    ensures
        r@ == le32(n),
{
    let mut b = [0u8; 4];
    byteorder::LittleEndian::write_u32(&mut b, n);
    b
}

/// The stored bytes of a claim.
pub open spec fn claim_bytes(c: ClaimedVAA) -> Seq<u8> {
    c.hash@ + le32(c.vaa_time)
}

/// The stored bytes of a message record.
pub open spec fn message_bytes(m: PostedMessage) -> Seq<u8> {
    seq![m.vaa_version] + le32(m.vaa_time) + m.vaa_signature_account@ + le32(m.submission_time)
        + le32(m.nonce) + seq![m.emitter_chain] + m.emitter_address@ + le32(
        m.payload@.len() as u32,
    ) + m.payload@
}

/// The stored bytes of a list of slots, without its length.
pub open spec fn slots_bytes(slots: Seq<[u8; 32]>) -> Seq<u8>
    decreases slots.len(),
{
    if slots.len() == 0 {
        Seq::empty()
    } else {
        slots_bytes(slots.drop_last()) + slots.last()@
    }
}

/// The stored bytes of a list of guardian keys, without its length.
pub open spec fn keys_bytes(keys: Seq<[u8; 20]>) -> Seq<u8>
    decreases keys.len(),
{
    if keys.len() == 0 {
        Seq::empty()
    } else {
        keys_bytes(keys.drop_last()) + keys.last()@
    }
}

/// The stored bytes of a guardian set.
pub open spec fn guardian_set_bytes(g: GuardianSetInfo) -> Seq<u8> {
    le32(g.index) + le32(g.keys@.len() as u32) + keys_bytes(g.keys@) + le32(g.creation_time)
        + le32(g.expiration_time)
}

/// The stored bytes of a signature set.
pub open spec fn signatures_bytes(s: Signatures) -> Seq<u8> {
    le32(s.signatures@.len() as u32) + slots_bytes(s.signatures@) + s.hash@ + le32(
        s.guardian_set_index,
    )
}

/// Encodes a claim for storage.
pub fn claim_to_bytes(c: &ClaimedVAA) -> (r: Vec<u8>)
    ensures
        r@ == claim_bytes(*c),
{
    let mut v: Vec<u8> = Vec::new();
    append_bytes(&mut v, &c.hash);
    append_bytes(&mut v, &write_le_u32(c.vaa_time));
    v
}

/// Encodes a message record for storage.
pub fn message_to_bytes(m: &PostedMessage) -> (r: Vec<u8>)
    requires
        m.payload@.len() <= u32::MAX,
    ensures
        r@ == message_bytes(*m),
{
    let mut v: Vec<u8> = Vec::new();
    v.push(m.vaa_version);
    append_bytes(&mut v, &write_le_u32(m.vaa_time));
    append_bytes(&mut v, &m.vaa_signature_account);
    append_bytes(&mut v, &write_le_u32(m.submission_time));
    append_bytes(&mut v, &write_le_u32(m.nonce));
    v.push(m.emitter_chain);
    append_bytes(&mut v, &m.emitter_address);
    append_bytes(&mut v, &write_le_u32(m.payload.len() as u32));
    append_bytes(&mut v, m.payload.as_slice());
    assert(v@ =~= message_bytes(*m));
    v
}

/// Encodes a signature set for storage.
pub fn signatures_to_bytes(s: &Signatures) -> (r: Vec<u8>)
    requires
        s.signatures@.len() <= u32::MAX,
    ensures
        r@ == signatures_bytes(*s),
{
    let mut v: Vec<u8> = Vec::new();
    append_bytes(&mut v, &write_le_u32(s.signatures.len() as u32));
    let ghost head = v@;
    let mut i: usize = 0;
    while i < s.signatures.len()
        invariant
            i <= s.signatures@.len(),
            v@ == head + slots_bytes(s.signatures@.subrange(0, i as int)),
        decreases s.signatures@.len() - i,
    {
        assert(s.signatures@.subrange(0, i + 1).drop_last() == s.signatures@.subrange(0, i as int));
        append_bytes(&mut v, &s.signatures[i]);
        i = i + 1;
        assert(v@ =~= head + slots_bytes(s.signatures@.subrange(0, i as int)));
    }
    assert(s.signatures@.subrange(0, s.signatures@.len() as int) == s.signatures@);
    append_bytes(&mut v, &s.hash);
    append_bytes(&mut v, &write_le_u32(s.guardian_set_index));
    assert(v@ =~= signatures_bytes(*s));
    v
}

/// Encodes a guardian set for storage.
pub fn guardian_set_to_bytes(g: &GuardianSetInfo) -> (r: Vec<u8>)
    requires
        g.keys@.len() <= u32::MAX,
    ensures
        r@ == guardian_set_bytes(*g),
{
    let mut v: Vec<u8> = Vec::new();
    append_bytes(&mut v, &write_le_u32(g.index));
    append_bytes(&mut v, &write_le_u32(g.keys.len() as u32));
    let ghost head = v@;
    let mut i: usize = 0;
    while i < g.keys.len()
        invariant
            i <= g.keys@.len(),
            v@ == head + keys_bytes(g.keys@.subrange(0, i as int)),
        decreases g.keys@.len() - i,
    {
        assert(g.keys@.subrange(0, i + 1).drop_last() == g.keys@.subrange(0, i as int));
        append_bytes(&mut v, &g.keys[i]);
        i = i + 1;
        assert(v@ =~= head + keys_bytes(g.keys@.subrange(0, i as int)));
    }
    assert(g.keys@.subrange(0, g.keys@.len() as int) == g.keys@);
    append_bytes(&mut v, &write_le_u32(g.creation_time));
    append_bytes(&mut v, &write_le_u32(g.expiration_time));
    assert(v@ =~= guardian_set_bytes(*g));
    v
}

} // verus!
