//! Decoder for the binary preamble of the PROXY protocol, version 2.
//!
//! A proxy that forwards a TCP or UDP connection may prepend a short binary
//! header so the receiving endpoint learns the original client's addresses.
//! This crate decodes that preamble in three stages, each a pure function
//! over a byte slice that returns the decoded value together with the
//! unconsumed remainder: the fixed twelve-byte signature, the four-byte
//! protocol header, and the fixed-size address section (twelve bytes for
//! IPv4, thirty-six for IPv6). The caller inspects the header's address
//! family to choose which address decoder to run; no stage keeps state.

use vstd::prelude::*;
use vstd::slice::slice_subrange;

verus! {

/// Why a decoding stage refused its input.
#[derive(Debug, PartialEq, Eq, Structural, Clone, Copy)]
pub enum DecodeError {
    /// Fewer bytes were available than the stage needs. A streaming caller
    /// should wait for more data: the input is not corrupt, only short.
    InsufficientInput,
    /// The first twelve bytes are not the protocol's magic sequence: the
    /// buffer does not carry this protocol at all.
    SignatureMismatch,
    /// The version nibble of the header byte was not 2: the header is
    /// malformed or speaks an incompatible version.
    UnsupportedVersion,
}

/// The protocol header that follows the signature on the wire: one byte
/// holding the version and command nibbles, one byte holding the address
/// family and transport protocol nibbles, and a big-endian 16-bit length
/// counting every byte that follows the header (address section plus any
/// extension data).
#[derive(Debug, PartialEq, Eq, Structural, Clone, Copy)]
pub struct PPv2Header {
    pub version: u8,
    pub command: u8,
    pub protocol: u8,
    pub address_family: u8,
    pub length: u16,
}

impl PPv2Header {
    /// A decoded header always carries version 2 — any other version is a
    /// decode failure, not a representable state — and each nibble field
    /// fits in four bits.
    pub open spec fn wf(self) -> bool {
        &&& self.version == 2
        &&& self.command <= 0xF
        &&& self.protocol <= 0xF
        &&& self.address_family <= 0xF
    }
}

/// The IPv4 address section: source and destination addresses as 32-bit
/// values in network order (the first wire octet is the most significant
/// byte), and source and destination ports. Twelve bytes on the wire.
#[derive(Debug, PartialEq, Eq, Structural, Clone, Copy)]
pub struct IPv4Address {
    pub source_ip: u32,
    pub destination_ip: u32,
    pub source_port: u16,
    pub destination_port: u16,
}

/// The IPv6 address section: source and destination addresses as 128-bit
/// values built from eight big-endian 16-bit groups each, and source and
/// destination ports. Thirty-six bytes on the wire.
#[derive(Debug, PartialEq, Eq, Structural, Clone, Copy)]
pub struct IPv6Address {
    pub source_ip: u128,
    pub destination_ip: u128,
    pub source_port: u16,
    pub destination_port: u16,
}

/// The twelve magic bytes that introduce every header of this protocol.
pub open spec fn signature() -> Seq<u8> {
    seq![0x0Du8, 0x0Au8, 0x0Du8, 0x0Au8, 0x00u8, 0x0Du8, 0x0Au8, 0x51u8, 0x55u8, 0x49u8, 0x54u8, 0x0Au8]
}

/// The value of two bytes read as a big-endian 16-bit integer.
pub open spec fn be16(hi: u8, lo: u8) -> int {
    hi * 256 + lo
}

/// The value of four bytes read as a big-endian 32-bit integer, as an IPv4
/// address stands on the wire: most significant octet first.
pub open spec fn be32(b0: u8, b1: u8, b2: u8, b3: u8) -> int {
    b0 * 0x100_0000 + b1 * 0x1_0000 + b2 * 0x100 + b3
}

/// The value of sixteen bytes read as an IPv6 address: eight big-endian
/// 16-bit groups, the first group most significant.
pub open spec fn ipv6_value(s: Seq<u8>) -> int
    recommends
        s.len() == 16,
{
    be16(s[0], s[1]) * 0x1_0000_0000_0000_0000_0000_0000_0000
        + be16(s[2], s[3]) * 0x1_0000_0000_0000_0000_0000_0000
        + be16(s[4], s[5]) * 0x1_0000_0000_0000_0000_0000
        + be16(s[6], s[7]) * 0x1_0000_0000_0000_0000
        + be16(s[8], s[9]) * 0x1_0000_0000_0000
        + be16(s[10], s[11]) * 0x1_0000_0000
        + be16(s[12], s[13]) * 0x1_0000
        + be16(s[14], s[15])
}

/// The two-byte big-endian encoding of a 16-bit value: high byte first.
pub open spec fn encode16(v: u16) -> Seq<u8> {
    seq![(v >> 8) as u8, v as u8]
}

/// The sixteen-byte encoding of eight 16-bit groups, each written big
/// endian, first group first.
pub open spec fn encode_groups(g0: u16, g1: u16, g2: u16, g3: u16, g4: u16, g5: u16, g6: u16, g7: u16) -> Seq<u8> {
    encode16(g0) + encode16(g1) + encode16(g2) + encode16(g3) + encode16(g4) + encode16(g5)
        + encode16(g6) + encode16(g7)
}

/// A 16-bit value written as its high byte followed by its low byte decodes
/// back to itself: ports round-trip through their big-endian encoding,
/// port 0 included.
pub proof fn lemma_be16_round_trip(v: u16)
    ensures
        be16(encode16(v)[0], encode16(v)[1]) == v,
{
    assert(((v >> 8) as u8) * 256 + (v as u8) == v) by (bit_vector);
}

/// Writing eight 16-bit groups big endian and decoding the sixteen bytes
/// yields the IPv6 address whose groups they are: group encoding
/// round-trips through the decoder. Eight zero groups decode to the
/// all-zeros address.
pub proof fn lemma_ipv6_groups_round_trip(g0: u16, g1: u16, g2: u16, g3: u16, g4: u16, g5: u16, g6: u16, g7: u16)
    ensures
        ipv6_value(encode_groups(g0, g1, g2, g3, g4, g5, g6, g7)) == g0
            * 0x1_0000_0000_0000_0000_0000_0000_0000 + g1 * 0x1_0000_0000_0000_0000_0000_0000 + g2
            * 0x1_0000_0000_0000_0000_0000 + g3 * 0x1_0000_0000_0000_0000 + g4 * 0x1_0000_0000_0000
            + g5 * 0x1_0000_0000 + g6 * 0x1_0000 + g7,
{
    let s = encode_groups(g0, g1, g2, g3, g4, g5, g6, g7);
    assert(s =~= seq![
        (g0 >> 8) as u8, g0 as u8, (g1 >> 8) as u8, g1 as u8,
        (g2 >> 8) as u8, g2 as u8, (g3 >> 8) as u8, g3 as u8,
        (g4 >> 8) as u8, g4 as u8, (g5 >> 8) as u8, g5 as u8,
        (g6 >> 8) as u8, g6 as u8, (g7 >> 8) as u8, g7 as u8,
    ]);
    assert(((g0 >> 8) as u8) * 256 + (g0 as u8) == g0) by (bit_vector);
    assert(((g1 >> 8) as u8) * 256 + (g1 as u8) == g1) by (bit_vector);
    assert(((g2 >> 8) as u8) * 256 + (g2 as u8) == g2) by (bit_vector);
    assert(((g3 >> 8) as u8) * 256 + (g3 as u8) == g3) by (bit_vector);
    assert(((g4 >> 8) as u8) * 256 + (g4 as u8) == g4) by (bit_vector);
    assert(((g5 >> 8) as u8) * 256 + (g5 as u8) == g5) by (bit_vector);
    assert(((g6 >> 8) as u8) * 256 + (g6 as u8) == g6) by (bit_vector);
    assert(((g7 >> 8) as u8) * 256 + (g7 as u8) == g7) by (bit_vector);
}

/// The header decoded from its four wire bytes: nibbles of the first two
/// bytes, then the big-endian length.
pub open spec fn header_of(b0: u8, b1: u8, b2: u8, b3: u8) -> PPv2Header {
    PPv2Header {
        version: b0 >> 4,
        command: b0 & 0x0F,
        protocol: b1 & 0x0F,
        address_family: b1 >> 4,
        length: be16(b2, b3) as u16,
    }
}

/// Reads two bytes as a big-endian 16-bit integer.
fn read_u16(hi: u8, lo: u8) -> (v: u16)
    ensures
        v == be16(hi, lo),
{
    (hi as u16) * 256 + (lo as u16)
}

/// Reads four bytes as a big-endian 32-bit integer.
fn read_u32(b0: u8, b1: u8, b2: u8, b3: u8) -> (v: u32)
    ensures
        v == be32(b0, b1, b2, b3),
{
    (b0 as u32) * 0x100_0000 + (b1 as u32) * 0x1_0000 + (b2 as u32) * 0x100 + (b3 as u32)
}

/// Reads the sixteen bytes of `input` starting at `off` as an IPv6 address.
fn read_ipv6(input: &[u8], off: usize) -> (v: u128)
    requires
        off + 16 <= input@.len(),
    ensures
        v == ipv6_value(input@.subrange(off as int, off as int + 16)),
{
    let g0: u16 = read_u16(input[off], input[off + 1]);
    let g1: u16 = read_u16(input[off + 2], input[off + 3]);
    let g2: u16 = read_u16(input[off + 4], input[off + 5]);
    let g3: u16 = read_u16(input[off + 6], input[off + 7]);
    let g4: u16 = read_u16(input[off + 8], input[off + 9]);
    let g5: u16 = read_u16(input[off + 10], input[off + 11]);
    let g6: u16 = read_u16(input[off + 12], input[off + 13]);
    let g7: u16 = read_u16(input[off + 14], input[off + 15]);
    let v: u128 = (g0 as u128) * 0x1_0000_0000_0000_0000_0000_0000_0000
        + (g1 as u128) * 0x1_0000_0000_0000_0000_0000_0000
        + (g2 as u128) * 0x1_0000_0000_0000_0000_0000
        + (g3 as u128) * 0x1_0000_0000_0000_0000
        + (g4 as u128) * 0x1_0000_0000_0000
        + (g5 as u128) * 0x1_0000_0000
        + (g6 as u128) * 0x1_0000
        + (g7 as u128);
    proof {
        let s = input@.subrange(off as int, off as int + 16);
        assert(forall|k: int| 0 <= k < 16 ==> s[k] == input@[off + k]);
    }
    v
}

/// Returns byte `i` of the magic signature.
fn signature_byte(i: usize) -> (b: u8)
    requires
        i < 12,
    ensures
        b == signature()[i as int],
{
    match i {
        0 => 0x0D,
        1 => 0x0A,
        2 => 0x0D,
        3 => 0x0A,
        4 => 0x00,
        5 => 0x0D,
        6 => 0x0A,
        7 => 0x51,
        8 => 0x55,
        9 => 0x49,
        10 => 0x54,
        _ => 0x0A,
    }
}

/// Whether the first twelve bytes of `input` equal the magic signature.
fn signature_matches(input: &[u8]) -> (b: bool)
    requires
        input@.len() >= 12,
    ensures
        b <==> input@.subrange(0, 12) == signature(),
{
    let mut i: usize = 0;
    while i < 12
        invariant
            0 <= i <= 12,
            input@.len() >= 12,
            forall|k: int| 0 <= k < i ==> input@[k] == signature()[k],
        decreases 12 - i,
    {
        if input[i] != signature_byte(i) {
            proof {
                assert(input@.subrange(0, 12)[i as int] == input@[i as int]);
            }
            return false;
        }
        i += 1;
    }
    proof {
        assert(input@.subrange(0, 12) =~= signature());
    }
    true
}

/// Recognizes the fixed twelve-byte signature at the head of `input`.
///
/// On success the consumed signature bytes and the untouched remainder are
/// both returned. A short input is reported as `InsufficientInput`, never as
/// a mismatch, so a streaming caller can tell "wait for more bytes" from
/// "this is not the protocol".
pub fn parse_signature<'a>(input: &'a [u8]) -> (r: Result<(&'a [u8], &'a [u8]), DecodeError>)
    ensures
        input@.len() < 12 ==> (r matches Err(e) && e == DecodeError::InsufficientInput),
        input@.len() >= 12 && input@.subrange(0, 12) != signature() ==> (r matches Err(e)
            && e == DecodeError::SignatureMismatch),
        input@.len() >= 12 && input@.subrange(0, 12) == signature() ==> (r matches Ok(p)
            && p.0@ == input@.subrange(12, input@.len() as int)
            && p.1@ == signature()),
{
    if input.len() < 12 {
        return Err(DecodeError::InsufficientInput);
    }
    if !signature_matches(input) {
        return Err(DecodeError::SignatureMismatch);
    }
    let rest = slice_subrange(input, 12, input.len());
    let consumed = slice_subrange(input, 0, 12);
    Ok((rest, consumed))
}

/// Decodes the four header bytes that immediately follow a matched
/// signature.
///
/// Consumes exactly four bytes. The high nibble of the first byte must be
/// the version 2; a bad version is rejected as soon as that byte is
/// available, before the rest of the header is demanded, since waiting for
/// more bytes could never cure it. The low nibble passes through as the
/// command. The second byte's high nibble is the address family and its low
/// nibble the transport protocol, both passed through unvalidated. The last
/// two bytes are the big-endian length of everything after the header.
/// Trailing bytes are returned untouched.
pub fn decode_header<'a>(input: &'a [u8]) -> (r: Result<(&'a [u8], PPv2Header), DecodeError>)
    ensures
        input@.len() == 0 ==> (r matches Err(e) && e == DecodeError::InsufficientInput),
        input@.len() >= 1 && input@[0] >> 4 != 2 ==> (r matches Err(e)
            && e == DecodeError::UnsupportedVersion),
        1 <= input@.len() < 4 && input@[0] >> 4 == 2 ==> (r matches Err(e)
            && e == DecodeError::InsufficientInput),
        input@.len() >= 4 && input@[0] >> 4 == 2 ==> (r matches Ok(p)
            && p.0@ == input@.subrange(4, input@.len() as int)
            && p.1 == header_of(input@[0], input@[1], input@[2], input@[3])
            && p.1.wf()),
{
    if input.len() == 0 {
        return Err(DecodeError::InsufficientInput);
    }
    let version_command: u8 = input[0];
    if version_command >> 4 != 2 {
        return Err(DecodeError::UnsupportedVersion);
    }
    if input.len() < 4 {
        return Err(DecodeError::InsufficientInput);
    }
    let proto_family: u8 = input[1];
    let length: u16 = read_u16(input[2], input[3]);
    let header = PPv2Header {
        version: version_command >> 4,
        command: version_command & 0x0F,
        protocol: proto_family & 0x0F,
        address_family: proto_family >> 4,
        length,
    };
    proof {
        assert(version_command & 0x0F <= 0xF) by (bit_vector);
        assert(proto_family & 0x0F <= 0xF) by (bit_vector);
        assert(proto_family >> 4 <= 0xF) by (bit_vector);
    }
    Ok((slice_subrange(input, 4, input.len()), header))
}

/// Recognizes the signature and decodes the header that follows it, as one
/// step: sixteen bytes consumed in all.
///
/// A short input is `InsufficientInput` whether the signature or the header
/// bytes are missing; a wrong magic is `SignatureMismatch`; a version nibble
/// other than 2 is `UnsupportedVersion` as soon as the byte that holds it is
/// available. Everything past the sixteenth byte is returned untouched.
pub fn parse_header<'a>(input: &'a [u8]) -> (r: Result<(&'a [u8], PPv2Header), DecodeError>)
    ensures
        input@.len() < 12 ==> (r matches Err(e) && e == DecodeError::InsufficientInput),
        input@.len() >= 12 && input@.subrange(0, 12) != signature() ==> (r matches Err(e)
            && e == DecodeError::SignatureMismatch),
        input@.len() == 12 && input@.subrange(0, 12) == signature() ==> (r matches Err(e)
            && e == DecodeError::InsufficientInput),
        input@.len() >= 13 && input@.subrange(0, 12) == signature() && input@[12] >> 4 != 2 ==> (
            r matches Err(e) && e == DecodeError::UnsupportedVersion),
        13 <= input@.len() < 16 && input@.subrange(0, 12) == signature() && input@[12] >> 4 == 2
            ==> (r matches Err(e) && e == DecodeError::InsufficientInput),
        input@.len() >= 16 && input@.subrange(0, 12) == signature() && input@[12] >> 4 == 2 ==> (
            r matches Ok(p)
            && p.0@ == input@.subrange(16, input@.len() as int)
            && p.1 == header_of(input@[12], input@[13], input@[14], input@[15])
            && p.1.wf()),
{
    let after_signature = match parse_signature(input) {
        Ok(p) => p.0,
        Err(e) => {
            return Err(e);
        },
    };
    proof {
        assert(after_signature@.len() == input@.len() - 12);
        assert(forall|k: int| 0 <= k < after_signature@.len() ==> after_signature@[k] == input@[k + 12]);
    }
    match decode_header(after_signature) {
        Ok(p) => {
            proof {
                assert(p.0@ =~= input@.subrange(16, input@.len() as int));
            }
            Ok(p)
        },
        Err(e) => Err(e),
    }
}

/// Decodes a twelve-byte IPv4 address section: four bytes source address,
/// four bytes destination address, then the two big-endian ports.
///
/// Port values pass through unvalidated — 0 is a legal "port unspecified"
/// value. The header's length field is not consulted: bounding reads against
/// it is the caller's framing policy. Trailing bytes are returned untouched.
pub fn parse_ipv4_address<'a>(input: &'a [u8]) -> (r: Result<(&'a [u8], IPv4Address), DecodeError>)
    ensures
        input@.len() < 12 ==> (r matches Err(e) && e == DecodeError::InsufficientInput),
        input@.len() >= 12 ==> (r matches Ok(p)
            && p.0@ == input@.subrange(12, input@.len() as int)
            && p.1.source_ip == be32(input@[0], input@[1], input@[2], input@[3])
            && p.1.destination_ip == be32(input@[4], input@[5], input@[6], input@[7])
            && p.1.source_port == be16(input@[8], input@[9])
            && p.1.destination_port == be16(input@[10], input@[11])),
{
    if input.len() < 12 {
        return Err(DecodeError::InsufficientInput);
    }
    let address = IPv4Address {
        source_ip: read_u32(input[0], input[1], input[2], input[3]),
        destination_ip: read_u32(input[4], input[5], input[6], input[7]),
        source_port: read_u16(input[8], input[9]),
        destination_port: read_u16(input[10], input[11]),
    };
    Ok((slice_subrange(input, 12, input.len()), address))
}

/// Decodes a thirty-six-byte IPv6 address section: sixteen bytes source
/// address, sixteen bytes destination address, then the two big-endian
/// ports.
///
/// Port values pass through unvalidated — 0 is a legal "port unspecified"
/// value. The header's length field is not consulted: bounding reads against
/// it is the caller's framing policy. Trailing bytes are returned untouched.
pub fn parse_ipv6_address<'a>(input: &'a [u8]) -> (r: Result<(&'a [u8], IPv6Address), DecodeError>)
    ensures
        input@.len() < 36 ==> (r matches Err(e) && e == DecodeError::InsufficientInput),
        input@.len() >= 36 ==> (r matches Ok(p)
            && p.0@ == input@.subrange(36, input@.len() as int)
            && p.1.source_ip == ipv6_value(input@.subrange(0, 16))
            && p.1.destination_ip == ipv6_value(input@.subrange(16, 32))
            && p.1.source_port == be16(input@[32], input@[33])
            && p.1.destination_port == be16(input@[34], input@[35])),
{
    if input.len() < 36 {
        return Err(DecodeError::InsufficientInput);
    }
    let address = IPv6Address {
        source_ip: read_ipv6(input, 0),
        destination_ip: read_ipv6(input, 16),
        source_port: read_u16(input[32], input[33]),
        destination_port: read_u16(input[34], input[35]),
    };
    Ok((slice_subrange(input, 36, input.len()), address))
}

} // verus!
