//! The envelope that carries a payload to the bridge: a magic tag, an
//! instruction kind, and a length-prefixed body.
use vstd::prelude::*;
use crate::codec::{append_bytes, be16, bytes_eq, read_be16, read_be_u16, write_be_u16};

verus! {

/// Why an envelope could not be read or written.
#[derive(Clone, Copy, Debug, PartialEq, Eq, Structural)]
pub enum Error {
    /// The bytes end before the envelope does.
    UnexpectedEndOfBuffer,
    /// The bytes do not start with the magic tag.
    InvalidMagic,
    /// The instruction kind is unknown.
    InvalidInstructionKind,
    /// The payload is too long for its two-byte length.
    PayloadTooLong,
}

/// The magic tag at the beginning of every envelope: "WHEV".
pub open spec fn magic() -> Seq<u8> {
    seq![0x57u8, 0x48u8, 0x45u8, 0x56u8]
}

/// The magic tag, as bytes.
pub fn ee_vaa_magic() -> (r: [u8; 4])
    ensures
        r@ == magic(),
{
    let m: [u8; 4] = [0x57, 0x48, 0x45, 0x56];
    assert(m@ =~= magic());
    m
}

/// Distinguishes the instructions in the envelope.
#[derive(Clone, Copy, Debug, PartialEq, Eq, Structural)]
pub enum InstructionKind {
    PostEEVAA,
}

/// The byte that encodes a kind.
pub open spec fn kind_byte(k: InstructionKind) -> u8 {
    match k {
        InstructionKind::PostEEVAA => 1,
    }
}

impl InstructionKind {
    /// The byte that encodes this kind.
    pub fn to_byte(&self) -> (r: u8)
        ensures
            r == kind_byte(*self),
    {
        match self {
            InstructionKind::PostEEVAA => 1,
        }
    }
}

/// A payload to be passed along to the guardians.
#[derive(Clone, Debug, PartialEq, Eq)]
pub struct EEVAA {
    /// The data to pass along.
    pub payload: Vec<u8>,
}

/// The body of an envelope: the payload's length in two big-endian bytes,
/// then the payload.
pub open spec fn eevaa_bytes(payload: Seq<u8>) -> Seq<u8> {
    be16(payload.len() as u16) + payload
}

/// The payload that a body starts with, or why there is none. Bytes after it
/// are not read.
pub open spec fn parse_eevaa(s: Seq<u8>) -> Result<Seq<u8>, Error> {
    if s.len() < 2 {
        Err(Error::UnexpectedEndOfBuffer)
    } else if s.len() < 2 + read_be16(s) {
        Err(Error::UnexpectedEndOfBuffer)
    } else {
        Ok(s.subrange(2, 2 + read_be16(s)))
    }
}

impl EEVAA {
    /// Reads a body from `bytes`.
    pub fn deserialize(bytes: &[u8]) -> (r: Result<Self, Error>)
        ensures
            match parse_eevaa(bytes@) {
                Ok(p) => r is Ok && r->Ok_0.payload@ == p,
                Err(e) => r == Err::<Self, Error>(e),
            },
    {
        Self::deserialize_from_reader(bytes)
    }

    /// Reads a body from the start of `r`.
    pub fn deserialize_from_reader(r: &[u8]) -> (res: Result<Self, Error>)
        ensures
            match parse_eevaa(r@) {
                Ok(p) => res is Ok && res->Ok_0.payload@ == p,
                Err(e) => res == Err::<Self, Error>(e),
            },
    {
        if r.len() < 2 {
            return Err(Error::UnexpectedEndOfBuffer);
        }
        let payload_len = read_be_u16(r) as usize;
        if r.len() - 2 < payload_len {
            return Err(Error::UnexpectedEndOfBuffer);
        }
        let mut payload: Vec<u8> = Vec::new();
        append_bytes(&mut payload, &r[2..2 + payload_len]);
        Ok(EEVAA { payload })
    }

    /// Writes this payload as a body.
    pub fn serialize(&self) -> (r: Result<Vec<u8>, Error>)
        ensures
            self.payload@.len() > u16::MAX ==> r == Err::<Vec<u8>, Error>(Error::PayloadTooLong),
            self.payload@.len() <= u16::MAX ==> r is Ok && r->Ok_0@ == eevaa_bytes(self.payload@),
    {
        if self.payload.len() > u16::MAX as usize {
            return Err(Error::PayloadTooLong);
        }
        let len = write_be_u16(self.payload.len() as u16);
        let mut c: Vec<u8> = Vec::new();
        append_bytes(&mut c, &len);
        append_bytes(&mut c, self.payload.as_slice());
        Ok(c)
    }
}

/// Top-level instruction.
#[derive(Clone, Debug, PartialEq, Eq)]
pub enum Instruction {
    /// Pass a payload to the bridge.
    PostEEVAA(EEVAA),
}

/// The payload that an instruction carries.
pub open spec fn instruction_payload(i: Instruction) -> Seq<u8> {
    match i {
        Instruction::PostEEVAA(e) => e.payload@,
    }
}

/// An envelope: the magic tag, the kind byte, then the body.
pub open spec fn instruction_bytes(payload: Seq<u8>) -> Seq<u8> {
    magic() + seq![kind_byte(InstructionKind::PostEEVAA)] + eevaa_bytes(payload)
}

/// The payload of the envelope that `s` starts with, or why there is none.
pub open spec fn parse_instruction(s: Seq<u8>) -> Result<Seq<u8>, Error> {
    if s.len() < 4 {
        Err(Error::UnexpectedEndOfBuffer)
    } else if s.subrange(0, 4) != magic() {
        Err(Error::InvalidMagic)
    } else if s.len() < 5 {
        Err(Error::UnexpectedEndOfBuffer)
    } else if s[4] != kind_byte(InstructionKind::PostEEVAA) {
        Err(Error::InvalidInstructionKind)
    } else {
        parse_eevaa(s.subrange(5, s.len() as int))
    }
}

impl Instruction {
    /// Reads an envelope from `buf`.
    pub fn deserialize(buf: &[u8]) -> (r: Result<Self, Error>)
        ensures
            match parse_instruction(buf@) {
                Ok(p) => r is Ok && instruction_payload(r->Ok_0) == p,
                Err(e) => r == Err::<Self, Error>(e),
            },
    {
        Self::deserialize_from_reader(buf)
    }

    /// Reads an envelope from the start of `r`.
    pub fn deserialize_from_reader(r: &[u8]) -> (res: Result<Self, Error>)
        ensures
            match parse_instruction(r@) {
                Ok(p) => res is Ok && instruction_payload(res->Ok_0) == p,
                Err(e) => res == Err::<Self, Error>(e),
            },
    {
        let magic = ee_vaa_magic();
        if r.len() < 4 {
            return Err(Error::UnexpectedEndOfBuffer);
        }
        if !bytes_eq(&r[0..4], &magic) {
            return Err(Error::InvalidMagic);
        }
        if r.len() < 5 {
            return Err(Error::UnexpectedEndOfBuffer);
        }
        let kind_byte = r[4];
        if kind_byte != InstructionKind::PostEEVAA.to_byte() {
            return Err(Error::InvalidInstructionKind);
        }
        match EEVAA::deserialize_from_reader(&r[5..r.len()]) {
            Ok(e) => Ok(Instruction::PostEEVAA(e)),
            Err(e) => Err(e),
        }
    }

    /// Writes this instruction as an envelope.
    pub fn serialize(&self) -> (r: Result<Vec<u8>, Error>)
        ensures
            instruction_payload(*self).len() > u16::MAX ==> r == Err::<Vec<u8>, Error>(
                Error::PayloadTooLong,
            ),
            instruction_payload(*self).len() <= u16::MAX ==> r is Ok && r->Ok_0@
                == instruction_bytes(instruction_payload(*self)),
    {
        let magic = ee_vaa_magic();
        let mut buf: Vec<u8> = Vec::new();
        append_bytes(&mut buf, &magic);
        match self {
            Instruction::PostEEVAA(ee_vaa) => {
                buf.push(InstructionKind::PostEEVAA.to_byte());
                match ee_vaa.serialize() {
                    Ok(body) => append_bytes(&mut buf, body.as_slice()),
                    Err(e) => return Err(e),
                }
            },
        }
        Ok(buf)
    }
}

} // verus!

verus! {

/// Reading back a written body gives the payload that was written.
pub proof fn lemma_eevaa_round_trip(payload: Seq<u8>)
    requires
        payload.len() <= u16::MAX,
    ensures
        parse_eevaa(eevaa_bytes(payload)) == Ok::<Seq<u8>, Error>(payload),
{
    let s = eevaa_bytes(payload);
    crate::codec::lemma_be16_round_trip(payload.len() as u16);
    assert(s.subrange(0, 2) =~= be16(payload.len() as u16));
    assert(read_be16(s) == read_be16(be16(payload.len() as u16)));
    assert(s.subrange(2, 2 + payload.len() as int) =~= payload);
}

/// Reading back a written envelope gives the payload that was written.
pub proof fn lemma_instruction_round_trip(payload: Seq<u8>)
    requires
        payload.len() <= u16::MAX,
    ensures
        parse_instruction(instruction_bytes(payload)) == Ok::<Seq<u8>, Error>(payload),
{
    let s = instruction_bytes(payload);
    assert(s.subrange(0, 4) =~= magic());
    assert(s.subrange(5, s.len() as int) =~= eevaa_bytes(payload));
    lemma_eevaa_round_trip(payload);
}

} // verus!
