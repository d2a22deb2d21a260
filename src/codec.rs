//! Canonical byte layouts and the digest that guardians sign over.
use byteorder::ByteOrder;
use sha3::Digest;
use vstd::prelude::*;

verus! {

/// The two big-endian bytes of `n`.
pub open spec fn be16(n: u16) -> Seq<u8> {
    seq![(n / 256) as u8, (n % 256) as u8]
}

/// The four big-endian bytes of `n`.
pub open spec fn be32(n: u32) -> Seq<u8> {
    seq![(n / 0x1000000) as u8, ((n / 0x10000) % 256) as u8, ((n / 0x100) % 256) as u8, (n % 256) as u8]
}

/// The value of the first two bytes of `b`, read big-endian.
pub open spec fn read_be16(b: Seq<u8>) -> int {
    b[0] as int * 256 + b[1] as int
}

/// The value of the first eight bytes of `b`, read little-endian.
pub open spec fn read_le64(b: Seq<u8>) -> int {
    b[0] as int + b[1] as int * 0x100 + b[2] as int * 0x10000 + b[3] as int * 0x1000000
        + b[4] as int * 0x100000000 + b[5] as int * 0x10000000000
        + b[6] as int * 0x1000000000000 + b[7] as int * 0x100000000000000
}

/// The Keccak-256 digest of a byte string.
pub uninterp spec fn keccak256_of(data: Seq<u8>) -> Seq<u8>;

/// Relies on `byteorder::BigEndian::write_u16`: the two bytes of `n`, most
/// significant first.
#[verifier::external_body]
pub(crate) fn write_be_u16(n: u16) -> (r: [u8; 2])
    ensures
        r@ == be16(n),
{
    let mut b = [0u8; 2];
    byteorder::BigEndian::write_u16(&mut b, n);
    b
}

/// Relies on `byteorder::BigEndian::write_u32`: the four bytes of `n`, most
/// significant first.
#[verifier::external_body]
fn write_be_u32(n: u32) -> (r: [u8; 4])
    ensures
        r@ == be32(n),
{
    let mut b = [0u8; 4];
    byteorder::BigEndian::write_u32(&mut b, n);
    b
}

/// Relies on `byteorder::BigEndian::read_u16`: the first two bytes of `b`,
/// most significant first (it panics on fewer than two bytes).
#[verifier::external_body]
pub(crate) fn read_be_u16(b: &[u8]) -> (r: u16)
    requires
        b@.len() >= 2,
    ensures
        r as int == read_be16(b@),
{
    byteorder::BigEndian::read_u16(b)
}

/// Relies on `byteorder::LittleEndian::read_u64`: the first eight bytes of
/// `b`, least significant first (it panics on fewer than eight bytes).
#[verifier::external_body]
pub(crate) fn read_le_u64(b: &[u8]) -> (r: u64)
    requires
        b@.len() >= 8,
    ensures
        r as int == read_le64(b@),
{
    byteorder::LittleEndian::read_u64(b)
}

/// Relies on `sha3::Keccak256::digest`: the 32-byte Keccak-256 digest of `data`.
#[verifier::external_body]
fn keccak256(data: &[u8]) -> (r: [u8; 32])
    ensures
        r@ == keccak256_of(data@),
{
    sha3::Keccak256::digest(data).into()
}

/// The canonical body of a message: timestamp and nonce big-endian, the
/// emitter chain, the emitter address, then the payload to the end.
pub open spec fn body_bytes(
    timestamp: u32,
    nonce: u32,
    emitter_chain: u8,
    emitter_address: Seq<u8>,
    payload: Seq<u8>,
) -> Seq<u8> {
    be32(timestamp) + be32(nonce) + seq![emitter_chain] + emitter_address + payload
}

/// Appends every byte of `src` to `dst`.
pub fn append_bytes(dst: &mut Vec<u8>, src: &[u8])
    ensures
        final(dst)@ == old(dst)@ + src@,
{
    let mut i: usize = 0;
    while i < src.len()
        invariant
            i <= src@.len(),
            dst@ == old(dst)@ + src@.subrange(0, i as int),
        decreases src@.len() - i,
    {
        dst.push(src[i]);
        i = i + 1;
        assert(src@.subrange(0, i as int) == src@.subrange(0, i - 1) + seq![src@[i - 1]]);
    }
    assert(src@.subrange(0, src@.len() as int) == src@);
}

/// Serializes a message body in the canonical layout.
pub fn message_body(
    timestamp: u32,
    nonce: u32,
    emitter_chain: u8,
    emitter_address: &[u8; 32],
    payload: &[u8],
) -> (r: Vec<u8>)
    ensures
        r@ == body_bytes(timestamp, nonce, emitter_chain, emitter_address@, payload@),
{
    let mut v: Vec<u8> = Vec::new();
    let t = write_be_u32(timestamp);
    append_bytes(&mut v, &t);
    let n = write_be_u32(nonce);
    append_bytes(&mut v, &n);
    v.push(emitter_chain);
    append_bytes(&mut v, emitter_address);
    append_bytes(&mut v, payload);
    v
}

/// The digest that guardians attest to: Keccak-256 of the canonical body.
pub fn canonical_hash(
    timestamp: u32,
    nonce: u32,
    emitter_chain: u8,
    emitter_address: &[u8; 32],
    payload: &[u8],
) -> (r: [u8; 32])
    ensures
        r@ == keccak256_of(body_bytes(timestamp, nonce, emitter_chain, emitter_address@, payload@)),
{
    let body = message_body(timestamp, nonce, emitter_chain, emitter_address, payload);
    keccak256(body.as_slice())
}

} // verus!

verus! {

/// Whether two byte strings are equal.
pub fn bytes_eq(a: &[u8], b: &[u8]) -> (r: bool)
    ensures
        r == (a@ == b@),
{
    if a.len() != b.len() {
        return false;
    }
    let mut i: usize = 0;
    while i < a.len()
        invariant
            a@.len() == b@.len(),
            i <= a@.len(),
            forall|j: int| 0 <= j < i ==> a@[j] == b@[j],
        decreases a@.len() - i,
    {
        if a[i] != b[i] {
            return false;
        }
        i = i + 1;
    }
    assert(a@ =~= b@);
    true
}

} // verus!

verus! {

/// Four big-endian bytes determine the integer they encode.
pub proof fn lemma_be32_injective(a: u32, b: u32)
    requires
        be32(a) == be32(b),
    ensures
        a == b,
{
    assert(be32(a)[0] == be32(b)[0] && be32(a)[1] == be32(b)[1]);
    assert(be32(a)[2] == be32(b)[2] && be32(a)[3] == be32(b)[3]);
    assert(a == (a / 0x1000000) * 0x1000000 + ((a / 0x10000) % 256) * 0x10000 + ((a / 0x100) % 256)
        * 0x100 + a % 256) by (nonlinear_arith);
    assert(b == (b / 0x1000000) * 0x1000000 + ((b / 0x10000) % 256) * 0x10000 + ((b / 0x100) % 256)
        * 0x100 + b % 256) by (nonlinear_arith);
}

/// The two big-endian bytes of `n` read back as `n`.
pub proof fn lemma_be16_round_trip(n: u16)
    ensures
        read_be16(be16(n)) == n,
        be16(n).len() == 2,
{
    assert(n == (n / 256) * 256 + n % 256) by (nonlinear_arith);
}

/// The canonical body is a function of its fields alone, so equal fields give
/// equal digests; and distinct fields, with 32-byte emitter addresses, give
/// distinct bodies, so no two different messages are hashed from the same
/// bytes.
pub proof fn lemma_canonical_body_injective(
    time_a: u32,
    nonce_a: u32,
    chain_a: u8,
    addr_a: Seq<u8>,
    payload_a: Seq<u8>,
    time_b: u32,
    nonce_b: u32,
    chain_b: u8,
    addr_b: Seq<u8>,
    payload_b: Seq<u8>,
)
    requires
        addr_a.len() == 32,
        addr_b.len() == 32,
    ensures
        (time_a == time_b && nonce_a == nonce_b && chain_a == chain_b && addr_a == addr_b && payload_a == payload_b) ==> keccak256_of(
            body_bytes(time_a, nonce_a, chain_a, addr_a, payload_a),
        ) == keccak256_of(body_bytes(time_b, nonce_b, chain_b, addr_b, payload_b)),
        body_bytes(time_a, nonce_a, chain_a, addr_a, payload_a) == body_bytes(time_b, nonce_b, chain_b, addr_b, payload_b) ==> (time_a == time_b && nonce_a == nonce_b
            && chain_a == chain_b && addr_a == addr_b && payload_a == payload_b),
{
    let b1 = body_bytes(time_a, nonce_a, chain_a, addr_a, payload_a);
    let b2 = body_bytes(time_b, nonce_b, chain_b, addr_b, payload_b);
    if b1 == b2 {
        assert(b1.subrange(0, 4) =~= be32(time_a));
        assert(b2.subrange(0, 4) =~= be32(time_b));
        lemma_be32_injective(time_a, time_b);
        assert(b1.subrange(4, 8) =~= be32(nonce_a));
        assert(b2.subrange(4, 8) =~= be32(nonce_b));
        lemma_be32_injective(nonce_a, nonce_b);
        assert(b1[8] == chain_a && b2[8] == chain_b);
        assert(b1.subrange(9, 41) =~= addr_a);
        assert(b2.subrange(9, 41) =~= addr_b);
        assert(b1.subrange(41, b1.len() as int) =~= payload_a);
        assert(b2.subrange(41, b2.len() as int) =~= payload_b);
    }
}

} // verus!
