//! The frame codec: checksum generation and verification, parsing of incoming
//! frames, and encoding of outgoing packets.
//!
//! A packet on the wire (after SLIP de-encapsulation) is a five-byte header
//! `[command_id, sequence_id, status, total_length as u16 LE]`, optionally
//! followed by a two-byte little-endian payload length and the payload body,
//! and closed by a two-byte checksum over all preceding bytes.  The declared
//! `total_length` counts the header plus the payload body (the two-byte
//! payload length field itself is not counted).

use vstd::prelude::*;

use vstd::bytes::{
    spec_u16_from_le_bytes, spec_u16_to_le_bytes, spec_u32_from_le_bytes, spec_u64_from_le_bytes,
    u16_from_le_bytes, u16_to_le_bytes, u32_from_le_bytes, u64_from_le_bytes,
};
use vstd::slice::{slice_index_get, slice_subrange, slice_to_vec};

use crate::protocol::{CommandId, ProtocolError, StatusCode};

verus! {

/// Error raised while reading the trailing checksum of a packet.
#[derive(Debug, Clone, Copy, PartialEq, Eq, Structural)]
pub enum CrcError {
    /// The checksum field does not consist of exactly two bytes.
    WrongSize(usize),
    /// The checksum does not match the bytes it covers.
    Mismatch,
}

/// Error raised while turning a raw SLIP packet into a frame.
#[derive(Debug)]
pub enum DeconzStreamError {
    /// The packet is too short to even carry a checksum.
    Read(Vec<u8>),
    /// The packet is malformed: bad checksum or a rejected header.
    Protocol(ProtocolError),
}

/// Sum of the bytes of `s`, as an unbounded integer.
pub open spec fn byte_sum(s: Seq<u8>) -> int
    decreases s.len(),
{
    if s.len() == 0 {
        0
    } else {
        byte_sum(s.drop_last()) + s.last()
    }
}

/// The 16-bit checksum over `s`: the two's-complement negation of the
/// wrapping 16-bit byte sum, that is `(-byte_sum(s)) mod 2^16`.
pub open spec fn spec_crc_value(s: Seq<u8>) -> u16 {
    ((0x10000 - byte_sum(s) % 0x10000) % 0x10000) as u16
}

/// The two checksum bytes appended to a packet, little-endian.
pub open spec fn spec_crc_bytes(s: Seq<u8>) -> Seq<u8> {
    spec_u16_to_le_bytes(spec_crc_value(s))
}

proof fn lemma_byte_sum_nonneg(s: Seq<u8>)
    ensures
        byte_sum(s) >= 0,
    decreases s.len(),
{
    if s.len() > 0 {
        lemma_byte_sum_nonneg(s.drop_last());
    }
}

proof fn lemma_byte_sum_push(s: Seq<u8>, b: u8)
    ensures
        byte_sum(s.push(b)) == byte_sum(s) + b,
{
    assert(s.push(b).drop_last() =~= s);
}

/// The defining law of the checksum: its value cancels the byte sum of the
/// covered bytes modulo `2^16`.
pub proof fn lemma_crc_cancels_sum(s: Seq<u8>)
    ensures
        (spec_crc_value(s) + byte_sum(s)) % 0x10000 == 0,
{
    lemma_byte_sum_nonneg(s);
    let m = byte_sum(s) % 0x10000;
    vstd::arithmetic::div_mod::lemma_mod_bound(byte_sum(s), 0x10000);
    if m == 0 {
        vstd::arithmetic::div_mod::lemma_mod_adds(0, byte_sum(s), 0x10000);
    } else {
        vstd::arithmetic::div_mod::lemma_small_mod((0x10000 - m) as nat, 0x10000);
        vstd::arithmetic::div_mod::lemma_mod_adds(0x10000 - m, byte_sum(s), 0x10000);
    }
}

/// The two-byte checksum closing every packet.
#[derive(Debug, Clone, Copy, PartialEq, Eq, Structural)]
pub struct DeconzCrc(pub u8, pub u8);

impl DeconzCrc {
    /// The 16-bit value the two checksum bytes encode.
    pub open spec fn spec_value(self) -> u16 {
        spec_u16_from_le_bytes(seq![self.0, self.1])
    }

    /// Generates the checksum over `input`.
    pub fn generate(input: &[u8]) -> (r: DeconzCrc)
        ensures
            seq![r.0, r.1] == spec_crc_bytes(input@),
            r.spec_value() == spec_crc_value(input@),
    {
        let mut sum: u16 = 0;
        let mut i: usize = 0;
        while i < input.len()
            invariant
                i <= input@.len(),
                sum == byte_sum(input@.take(i as int)) % 0x10000,
            decreases input@.len() - i,
        {
            proof {
                lemma_byte_sum_nonneg(input@.take(i as int));
                lemma_byte_sum_push(input@.take(i as int), input@[i as int]);
                assert(input@.take(i as int).push(input@[i as int]) =~= input@.take(i + 1));
                vstd::arithmetic::div_mod::lemma_mod_adds(
                    byte_sum(input@.take(i as int)),
                    input@[i as int] as int,
                    0x10000,
                );
            }
            sum = (((sum as u32) + (*slice_index_get(input, i) as u32)) % 0x10000) as u16;
            i = i + 1;
        }
        proof {
            assert(input@.take(input@.len() as int) =~= input@);
            lemma_byte_sum_nonneg(input@);
        }
        let value: u16 = (((0x10000u32) - (sum as u32)) % 0x10000) as u16;
        proof {
            let m = byte_sum(input@) % 0x10000;
            vstd::arithmetic::div_mod::lemma_mod_bound(byte_sum(input@), 0x10000);
            if m != 0 {
                vstd::arithmetic::div_mod::lemma_small_mod((0x10000 - m) as nat, 0x10000);
            }
            assert(value == spec_crc_value(input@));
        }
        let value_bytes = u16_to_le_bytes(value);
        let r = DeconzCrc(value_bytes[0], value_bytes[1]);
        proof {
            vstd::bytes::lemma_auto_spec_u16_to_from_le_bytes();
            assert(seq![r.0, r.1] =~= spec_u16_to_le_bytes(value));
        }
        r
    }

    /// Reads a checksum from a two-byte buffer; any other length is an error.
    pub fn from_values(buf: &[u8]) -> (r: Result<DeconzCrc, CrcError>)
        ensures
            buf@.len() == 2 ==> r == Ok::<DeconzCrc, CrcError>(DeconzCrc(buf@[0], buf@[1])),
            buf@.len() != 2 ==> r == Err::<DeconzCrc, CrcError>(
                CrcError::WrongSize(buf@.len() as usize),
            ),
    {
        if buf.len() != 2 {
            return Err(CrcError::WrongSize(buf.len()));
        }
        Ok(DeconzCrc(*slice_index_get(buf, 0), *slice_index_get(buf, 1)))
    }

    /// The two checksum bytes, low byte first.
    pub fn as_slice(&self) -> (r: [u8; 2])
        ensures
            r@ == seq![self.0, self.1],
    {
        let r = [self.0, self.1];
        proof {
            assert(r@ =~= seq![self.0, self.1]);
        }
        r
    }

    /// Validates `payload` against this checksum and parses the verified
    /// bytes into a frame.  A mismatch is a protocol error, not a soft drop.
    pub fn verify_frame(self, payload: Vec<u8>) -> (r: Result<DeconzFrame, ProtocolError>)
        ensures
            seq![self.0, self.1] == spec_crc_bytes(payload@) ==> spec_parse_result_matches(
                r,
                payload@,
            ),
            seq![self.0, self.1] != spec_crc_bytes(payload@) ==> r == Err::<
                DeconzFrame,
                ProtocolError,
            >(ProtocolError::CrcError(CrcError::Mismatch)),
    {
        let expected = DeconzCrc::generate(payload.as_slice());
        if self.0 != expected.0 || self.1 != expected.1 {
            proof {
                assert(seq![self.0, self.1] != spec_crc_bytes(payload@));
            }
            return Err(ProtocolError::CrcError(CrcError::Mismatch));
        }
        proof {
            assert(seq![self.0, self.1] =~= spec_crc_bytes(payload@));
        }
        DeconzFrame::parse_incoming(payload)
    }
}

/// The declared total length of checksum-stripped bytes `s`, read from bytes
/// 3 and 4.
pub open spec fn spec_total_of(s: Seq<u8>) -> u16 {
    spec_u16_from_le_bytes(s.subrange(3, 5))
}

/// Whether the checksum-stripped bytes `s` are accepted as a frame: at least
/// a header, known command and status bytes, a declared length that covers a
/// header, and no more payload bytes than the declared length allows.
pub open spec fn spec_parse_accepts(s: Seq<u8>) -> bool {
    &&& s.len() >= 5
    &&& CommandId::spec_from_u8(s[0]) is Some
    &&& StatusCode::spec_from_u8(s[2]) is Some
    &&& spec_total_of(s) >= 5
    &&& s.len() - 5 <= spec_total_of(s)
}

/// The protocol error reported for rejected bytes `s`: the first failing
/// check, in the order the checks are made.
pub open spec fn spec_parse_error(s: Seq<u8>) -> ProtocolError {
    if s.len() < 5 {
        ProtocolError::SmallFrame(s.len() as usize)
    } else if CommandId::spec_from_u8(s[0]) is None {
        ProtocolError::UnknownCommandId(s[0])
    } else if StatusCode::spec_from_u8(s[2]) is None {
        ProtocolError::UnknownStatusCode(s[2])
    } else if spec_total_of(s) < 5 {
        ProtocolError::SmallFrame(spec_total_of(s) as usize)
    } else {
        ProtocolError::LargeFrame((s.len() - 5) as usize)
    }
}

/// Relates a parse result to the checksum-stripped input bytes: acceptance is
/// exactly `spec_parse_accepts`, an accepted frame carries the decoded header
/// and the bytes after the header, and a rejected input reports the first
/// failing check.
pub open spec fn spec_parse_result_matches(
    r: Result<DeconzFrame, ProtocolError>,
    s: Seq<u8>,
) -> bool {
    &&& (r is Ok <==> spec_parse_accepts(s))
    &&& match r {
        Ok(f) => {
            &&& f.spec_command_id() == CommandId::spec_from_u8(s[0]).unwrap()
            &&& f.spec_sequence_id() == s[1]
            &&& f.spec_status() == StatusCode::spec_from_u8(s[2]).unwrap()
            &&& f.remaining_bytes() == s.skip(5)
        },
        Err(e) => e == spec_parse_error(s),
    }
}

/// A parsed incoming frame: the decoded header fields plus the bytes after
/// the header, read through a cursor.
#[derive(Debug)]
pub struct DeconzFrame {
    command_id: CommandId,
    sequence_number: u8,
    status: StatusCode,
    payload: Vec<u8>,
    pos: usize,
}

impl DeconzFrame {
    #[verifier::type_invariant]
    spec fn type_wf(self) -> bool {
        self.pos <= self.payload@.len()
    }

    /// This frame's command identifier.
    pub closed spec fn spec_command_id(self) -> CommandId {
        self.command_id
    }

    /// This frame's sequence number.
    pub closed spec fn spec_sequence_id(self) -> u8 {
        self.sequence_number
    }

    /// This frame's status code.
    pub closed spec fn spec_status(self) -> StatusCode {
        self.status
    }

    /// The bytes not yet consumed by the cursor.
    pub closed spec fn remaining_bytes(self) -> Seq<u8> {
        self.payload@.skip(self.pos as int)
    }

    /// True when two frames agree on the three decoded header fields.
    pub open spec fn same_header(self, other: DeconzFrame) -> bool {
        &&& self.spec_command_id() == other.spec_command_id()
        &&& self.spec_sequence_id() == other.spec_sequence_id()
        &&& self.spec_status() == other.spec_status()
    }

    /// Builds an incoming frame directly from decoded header fields and body
    /// bytes, with the cursor at the start of the body.
    pub fn incoming(
        command_id: CommandId,
        sequence_id: u8,
        status: StatusCode,
        payload: Vec<u8>,
    ) -> (r: DeconzFrame)
        ensures
            r.spec_command_id() == command_id,
            r.spec_sequence_id() == sequence_id,
            r.spec_status() == status,
            r.remaining_bytes() == payload@,
    {
        let r = DeconzFrame { command_id, sequence_number: sequence_id, status, payload, pos: 0 };
        proof {
            assert(r.remaining_bytes() =~= r.payload@);
        }
        r
    }

    /// Consumes checksum-stripped packet bytes and decodes the frame header,
    /// leaving the cursor on the first byte after the header.
    pub fn parse_incoming(bytes: Vec<u8>) -> (r: Result<DeconzFrame, ProtocolError>)
        ensures
            spec_parse_result_matches(r, bytes@),
    {
        if bytes.len() < 5 {
            return Err(ProtocolError::SmallFrame(bytes.len()));
        }
        let command_id = match CommandId::try_from_u8(bytes[0]) {
            Ok(c) => c,
            Err(e) => {
                return Err(e);
            },
        };
        let sequence_number = bytes[1];
        let status = match StatusCode::try_from_u8(bytes[2]) {
            Ok(s) => s,
            Err(e) => {
                return Err(e);
            },
        };
        let total_bytes = slice_subrange(bytes.as_slice(), 3, 5);
        let total = u16_from_le_bytes(total_bytes);
        proof {
            assert(total_bytes@ =~= bytes@.subrange(3, 5));
        }
        if total < 5 {
            return Err(ProtocolError::SmallFrame(total as usize));
        }
        if bytes.len() - 5 > total as usize {
            return Err(ProtocolError::LargeFrame(bytes.len() - 5));
        }
        let r = DeconzFrame { command_id, sequence_number, status, payload: bytes, pos: 5 };
        proof {
            assert(r.remaining_bytes() =~= r.payload@.skip(5));
        }
        Ok(r)
    }

    /// This frame's command identifier.
    pub fn command_id(&self) -> (r: CommandId)
        ensures
            r == self.spec_command_id(),
    {
        self.command_id
    }

    /// This frame's sequence number.
    pub fn sequence_id(&self) -> (r: u8)
        ensures
            r == self.spec_sequence_id(),
    {
        self.sequence_number
    }

    /// This frame's status code.
    pub fn status(&self) -> (r: StatusCode)
        ensures
            r == self.spec_status(),
    {
        self.status
    }

    /// How many bytes the cursor has left to read.
    pub fn remaining(&self) -> (r: usize)
        ensures
            r == self.remaining_bytes().len(),
    {
        proof {
            use_type_invariant(self);
        }
        self.payload.len() - self.pos
    }

    /// True when the cursor has bytes left to read.
    pub fn has_remaining(&self) -> (r: bool)
        ensures
            r == (self.remaining_bytes().len() > 0),
    {
        self.remaining() > 0
    }

    /// The byte `i` places past the cursor, without advancing it.
    pub fn remaining_byte(&self, i: usize) -> (r: u8)
        requires
            i < self.remaining_bytes().len(),
        ensures
            r == self.remaining_bytes()[i as int],
    {
        proof {
            use_type_invariant(self);
            vstd::std_specs::vec::axiom_spec_len(&self.payload);
        }
        self.payload[self.pos + i]
    }

    /// Reads one byte and advances the cursor.
    pub fn get_u8(&mut self) -> (r: u8)
        requires
            old(self).remaining_bytes().len() >= 1,
        ensures
            r == old(self).remaining_bytes()[0],
            final(self).remaining_bytes() == old(self).remaining_bytes().skip(1),
            final(self).same_header(*old(self)),
    {
        proof {
            use_type_invariant(&*self);
            vstd::std_specs::vec::axiom_spec_len(&self.payload);
        }
        let b = self.payload[self.pos];
        self.pos = self.pos + 1;
        proof {
            assert(final(self).remaining_bytes() =~= old(self).remaining_bytes().skip(1));
        }
        b
    }

    /// Reads one byte as a signed value and advances the cursor.
    pub fn get_i8(&mut self) -> (r: i8)
        requires
            old(self).remaining_bytes().len() >= 1,
        ensures
            r == old(self).remaining_bytes()[0] as i8,
            final(self).remaining_bytes() == old(self).remaining_bytes().skip(1),
            final(self).same_header(*old(self)),
    {
        self.get_u8() as i8
    }

    /// Reads a little-endian 16-bit value and advances the cursor.
    pub fn get_u16_le(&mut self) -> (r: u16)
        requires
            old(self).remaining_bytes().len() >= 2,
        ensures
            r == spec_u16_from_le_bytes(old(self).remaining_bytes().take(2)),
            final(self).remaining_bytes() == old(self).remaining_bytes().skip(2),
            final(self).same_header(*old(self)),
    {
        proof {
            use_type_invariant(&*self);
            vstd::std_specs::vec::axiom_spec_len(&self.payload);
        }
        let sl = slice_subrange(self.payload.as_slice(), self.pos, self.pos + 2);
        let r = u16_from_le_bytes(sl);
        proof {
            assert(sl@ =~= old(self).remaining_bytes().take(2));
        }
        self.pos = self.pos + 2;
        proof {
            assert(final(self).remaining_bytes() =~= old(self).remaining_bytes().skip(2));
        }
        r
    }

    /// Reads a little-endian 32-bit value and advances the cursor.
    pub fn get_u32_le(&mut self) -> (r: u32)
        requires
            old(self).remaining_bytes().len() >= 4,
        ensures
            r == spec_u32_from_le_bytes(old(self).remaining_bytes().take(4)),
            final(self).remaining_bytes() == old(self).remaining_bytes().skip(4),
            final(self).same_header(*old(self)),
    {
        proof {
            use_type_invariant(&*self);
            vstd::std_specs::vec::axiom_spec_len(&self.payload);
        }
        let sl = slice_subrange(self.payload.as_slice(), self.pos, self.pos + 4);
        let r = u32_from_le_bytes(sl);
        proof {
            assert(sl@ =~= old(self).remaining_bytes().take(4));
        }
        self.pos = self.pos + 4;
        proof {
            assert(final(self).remaining_bytes() =~= old(self).remaining_bytes().skip(4));
        }
        r
    }

    /// Reads a little-endian 64-bit value and advances the cursor.
    pub fn get_u64_le(&mut self) -> (r: u64)
        requires
            old(self).remaining_bytes().len() >= 8,
        ensures
            r == spec_u64_from_le_bytes(old(self).remaining_bytes().take(8)),
            final(self).remaining_bytes() == old(self).remaining_bytes().skip(8),
            final(self).same_header(*old(self)),
    {
        proof {
            use_type_invariant(&*self);
            vstd::std_specs::vec::axiom_spec_len(&self.payload);
        }
        let sl = slice_subrange(self.payload.as_slice(), self.pos, self.pos + 8);
        let r = u64_from_le_bytes(sl);
        proof {
            assert(sl@ =~= old(self).remaining_bytes().take(8));
        }
        self.pos = self.pos + 8;
        proof {
            assert(final(self).remaining_bytes() =~= old(self).remaining_bytes().skip(8));
        }
        r
    }

    /// Copies the next `n` bytes out and advances the cursor past them.
    pub fn read_bytes(&mut self, n: usize) -> (r: Vec<u8>)
        requires
            n <= old(self).remaining_bytes().len(),
        ensures
            r@ == old(self).remaining_bytes().take(n as int),
            final(self).remaining_bytes() == old(self).remaining_bytes().skip(n as int),
            final(self).same_header(*old(self)),
    {
        proof {
            use_type_invariant(&*self);
            vstd::std_specs::vec::axiom_spec_len(&self.payload);
        }
        let sl = slice_subrange(self.payload.as_slice(), self.pos, self.pos + n);
        let r = slice_to_vec(sl);
        proof {
            assert(sl@ =~= old(self).remaining_bytes().take(n as int));
        }
        self.pos = self.pos + n;
        proof {
            assert(final(self).remaining_bytes() =~= old(self).remaining_bytes().skip(n as int));
        }
        r
    }

    /// Copies all bytes the cursor has left and advances it to the end.
    pub fn read_rest(&mut self) -> (r: Vec<u8>)
        ensures
            r@ == old(self).remaining_bytes(),
            final(self).remaining_bytes().len() == 0,
            final(self).same_header(*old(self)),
    {
        let n = self.remaining();
        let r = self.read_bytes(n);
        proof {
            assert(old(self).remaining_bytes().take(n as int) =~= old(self).remaining_bytes());
        }
        r
    }
}

/// The declared total length of an outgoing packet: the five header bytes
/// plus the payload body.
pub open spec fn spec_total_length(payload: Option<Seq<u8>>) -> int {
    match payload {
        Some(p) => 5 + p.len() as int,
        None => 5,
    }
}

/// The bytes of an outgoing packet before the checksum: the header with
/// status zero, and, when a payload is carried, its little-endian length and
/// the payload body.
pub open spec fn spec_packet_bytes(cid: CommandId, seq: u8, payload: Option<Seq<u8>>) -> Seq<u8> {
    let header = seq![cid.spec_u8(), seq, 0u8] + spec_u16_to_le_bytes(
        spec_total_length(payload) as u16,
    );
    match payload {
        Some(p) => header + spec_u16_to_le_bytes(p.len() as u16) + p,
        None => header,
    }
}

/// The full wire bytes of an outgoing packet: the packet bytes followed by
/// their checksum.
pub open spec fn spec_encode_bytes(cid: CommandId, seq: u8, payload: Option<Seq<u8>>) -> Seq<u8> {
    let pb = spec_packet_bytes(cid, seq, payload);
    pb + spec_crc_bytes(pb)
}

/// An outgoing packet: a command identifier, a sequence number, and an
/// optional payload body.  An absent payload and an empty payload encode
/// differently: the empty payload still carries a zero length field.
#[derive(Debug)]
pub struct OutgoingPacket {
    command_id: CommandId,
    sequence_number: u8,
    payload: Option<Vec<u8>>,
}

impl OutgoingPacket {
    /// This packet's command identifier.
    pub closed spec fn spec_command_id(self) -> CommandId {
        self.command_id
    }

    /// This packet's sequence number.
    pub closed spec fn spec_sequence_id(self) -> u8 {
        self.sequence_number
    }

    /// This packet's payload body, if any.
    pub closed spec fn spec_payload(self) -> Option<Seq<u8>> {
        match self.payload {
            Some(p) => Some(p@),
            None => None,
        }
    }

    /// Whether the payload is small enough for the declared lengths to fit in
    /// their 16-bit fields.
    pub open spec fn payload_fits(payload: Option<Seq<u8>>) -> bool {
        match payload {
            Some(p) => p.len() <= 0xFFFA,
            None => true,
        }
    }

    /// Builds an outgoing packet.
    pub fn new(command_id: CommandId, sequence_number: u8, payload: Option<Vec<u8>>) -> (r:
        OutgoingPacket)
        requires
            Self::payload_fits(
                match payload {
                    Some(p) => Some(p@),
                    None => None,
                },
            ),
        ensures
            r.spec_command_id() == command_id,
            r.spec_sequence_id() == sequence_number,
            r.spec_payload() == match payload {
                Some(p) => Some(p@),
                None => None::<Seq<u8>>,
            },
    {
        OutgoingPacket { command_id, sequence_number, payload }
    }

    /// This packet's command identifier.
    pub fn command_id(&self) -> (r: CommandId)
        ensures
            r == self.spec_command_id(),
    {
        self.command_id
    }

    /// This packet's sequence number.
    pub fn sequence_id(&self) -> (r: u8)
        ensures
            r == self.spec_sequence_id(),
    {
        self.sequence_number
    }

    /// A view of this packet's payload body.
    pub fn payload_bytes(&self) -> (r: &Option<Vec<u8>>)
        ensures
            self.spec_payload() == match r {
                Some(p) => Some(p@),
                None => None::<Seq<u8>>,
            },
    {
        &self.payload
    }

    /// The packet bytes before the checksum: header, optional length field,
    /// and payload body.
    pub fn packet_bytes(&self) -> (r: Vec<u8>)
        requires
            Self::payload_fits(self.spec_payload()),
        ensures
            r@ == spec_packet_bytes(
                self.spec_command_id(),
                self.spec_sequence_id(),
                self.spec_payload(),
            ),
    {
        let total: u16 = match &self.payload {
            Some(p) => (5 + p.len()) as u16,
            None => 5u16,
        };
        let mut buf: Vec<u8> = Vec::new();
        buf.push(self.command_id.as_u8());
        buf.push(self.sequence_number);
        buf.push(0u8);
        let mut total_bytes = u16_to_le_bytes(total);
        buf.append(&mut total_bytes);
        match &self.payload {
            Some(p) => {
                let mut len_bytes = u16_to_le_bytes(p.len() as u16);
                buf.append(&mut len_bytes);
                buf.extend_from_slice(p.as_slice());
                proof {
                    assert(buf@ =~= spec_packet_bytes(
                        self.spec_command_id(),
                        self.spec_sequence_id(),
                        self.spec_payload(),
                    ));
                }
            },
            None => {
                proof {
                    assert(buf@ =~= spec_packet_bytes(
                        self.spec_command_id(),
                        self.spec_sequence_id(),
                        self.spec_payload(),
                    ));
                }
            },
        }
        buf
    }

    /// Builds the finished wire bytes: the packet bytes with the checksum
    /// appended.  These are the bytes handed to the SLIP encoder.
    pub fn encode(self) -> (r: Vec<u8>)
        requires
            Self::payload_fits(self.spec_payload()),
        ensures
            r@ == spec_encode_bytes(
                self.spec_command_id(),
                self.spec_sequence_id(),
                self.spec_payload(),
            ),
    {
        let mut buf = self.packet_bytes();
        let crc = DeconzCrc::generate(buf.as_slice());
        let ghost packet = buf@;
        buf.push(crc.0);
        buf.push(crc.1);
        proof {
            assert(buf@ =~= packet + spec_crc_bytes(packet));
        }
        buf
    }
}

/// Relates the result of `read_frame` to the raw packet bytes: a packet too
/// short for a checksum is reported back verbatim, a checksum mismatch is a
/// protocol error, and otherwise the checksum-stripped bytes parse as
/// `spec_parse_result_matches` describes.
pub open spec fn spec_read_frame_matches(
    r: Result<DeconzFrame, DeconzStreamError>,
    bytes: Seq<u8>,
) -> bool {
    if bytes.len() < 2 {
        r matches Err(DeconzStreamError::Read(b)) && b@ == bytes
    } else {
        let body = bytes.take(bytes.len() - 2);
        let tail = bytes.skip(bytes.len() - 2);
        if tail == spec_crc_bytes(body) {
            match r {
                Ok(f) => spec_parse_result_matches(Ok(f), body),
                Err(DeconzStreamError::Protocol(e)) => spec_parse_result_matches(Err(e), body),
                Err(DeconzStreamError::Read(_)) => false,
            }
        } else {
            r matches Err(DeconzStreamError::Protocol(ProtocolError::CrcError(
                CrcError::Mismatch,
            )))
        }
    }
}

/// Turns one raw SLIP packet into a validated frame: reads the trailing
/// checksum, verifies it over the rest, and parses the frame header.
pub fn read_frame(bytes: Vec<u8>) -> (r: Result<DeconzFrame, DeconzStreamError>)
    ensures
        spec_read_frame_matches(r, bytes@),
{
    let mut bytes = bytes;
    let n = bytes.len();
    if n < 2 {
        return Err(DeconzStreamError::Read(bytes));
    }
    let crc_slice = slice_subrange(bytes.as_slice(), n - 2, n);
    let crc = match DeconzCrc::from_values(crc_slice) {
        Ok(c) => c,
        Err(_) => {
            proof {
                assert(false);
            }
            return Err(DeconzStreamError::Protocol(ProtocolError::CrcError(CrcError::Mismatch)));
        },
    };
    let ghost orig = bytes@;
    bytes.truncate(n - 2);
    proof {
        assert(seq![crc.0, crc.1] =~= orig.skip(n - 2));
        assert(bytes@ =~= orig.take(n - 2));
    }
    match crc.verify_frame(bytes) {
        Ok(f) => Ok(f),
        Err(e) => Err(DeconzStreamError::Protocol(e)),
    }
}

/// Acceptance bounds: any byte sequence accepted as a frame declares a total
/// length of at least a header, and carries no more bytes after the header
/// than the declared total length.
pub proof fn lemma_accepted_frame_bounds(s: Seq<u8>)
    requires
        spec_parse_accepts(s),
    ensures
        spec_total_of(s) >= 5,
        s.len() - 5 <= spec_total_of(s),
{
}

/// Round trip: the encoding of any outgoing packet splits into packet bytes
/// and a matching checksum, the packet bytes are accepted as a frame, and the
/// decoded frame carries the encoded command identifier, sequence number, a
/// success (zero) status, and the optional length field and payload body.
pub proof fn lemma_encode_round_trip(cid: CommandId, seq: u8, payload: Option<Seq<u8>>)
    requires
        OutgoingPacket::payload_fits(payload),
    ensures
        ({
            let e = spec_encode_bytes(cid, seq, payload);
            let body = e.take(e.len() - 2);
            &&& e.len() >= 7
            &&& body == spec_packet_bytes(cid, seq, payload)
            &&& e.skip(e.len() - 2) == spec_crc_bytes(body)
            &&& spec_parse_accepts(body)
            &&& CommandId::spec_from_u8(body[0]) == Some(cid)
            &&& body[1] == seq
            &&& StatusCode::spec_from_u8(body[2]) == Some(StatusCode::Success)
            &&& body.skip(5) == match payload {
                Some(p) => spec_u16_to_le_bytes(p.len() as u16) + p,
                None => Seq::<u8>::empty(),
            }
            &&& (payload matches Some(p) ==> spec_total_of(body) == p.len() + 5
                && spec_u16_from_le_bytes(body.subrange(5, 7)) == p.len())
            &&& (payload is None ==> spec_total_of(body) == 5)
        }),
{
    vstd::bytes::lemma_auto_spec_u16_to_from_le_bytes();
    let pb = spec_packet_bytes(cid, seq, payload);
    let e = spec_encode_bytes(cid, seq, payload);
    assert(spec_crc_bytes(pb).len() == 2);
    assert(e.take(e.len() - 2) =~= pb);
    assert(e.skip(e.len() - 2) =~= spec_crc_bytes(pb));
    let total = spec_total_length(payload) as u16;
    assert(pb.subrange(3, 5) =~= spec_u16_to_le_bytes(total));
    assert(spec_total_of(pb) == total);
    match payload {
        Some(p) => {
            assert(pb.len() == 7 + p.len());
            assert(pb.skip(5) =~= spec_u16_to_le_bytes(p.len() as u16) + p);
            assert(pb.subrange(5, 7) =~= spec_u16_to_le_bytes(p.len() as u16));
        },
        None => {
            assert(pb.len() == 5);
            assert(pb.skip(5) =~= Seq::<u8>::empty());
        },
    }
    crate::protocol::lemma_command_id_round_trip(cid);
}

} // verus!
