//! Version-aware binary codec primitives.
//!
//! Every message, inbound or outbound, is a little-endian `u16` length
//! prefix followed by a payload.  The functions here decode payload
//! fields from a byte buffer behind a cursor, and encode fields by
//! appending to a byte buffer.  Every operation whose wire shape depends
//! on the client revision takes the negotiated [`Protocol`] and branches
//! deterministically on it.

use vstd::prelude::*;
use crate::character::{Gender, Outfit};
use crate::header::HeaderSend;
use crate::position::Position;
use crate::Protocol;

verus! {

/// A typed decode failure for a malformed or unrecognized wire value.
/// The caller decides whether it is connection-fatal or request-fatal.
#[derive(Debug, Copy, Clone, Eq, PartialEq, Structural)]
pub enum DecodeError {
    /// The buffer ended before the field did.
    UnexpectedEnd,
    /// A numeric revision identifier this server does not speak.
    UnknownProtocol(u16),
    /// An inbound direction byte outside the compass.
    InvalidDirection(u8),
    /// A chat message qualifier letter with no known rendering.
    InvalidChatQualifier,
    InvalidFightMode(u8),
    InvalidFightStance(u8),
    InvalidInventorySlot(u8),
    InvalidMagicEffect(u8),
    InvalidCharacterOutfit(u8),
    /// A login message whose shape matches no known flow for its version.
    UnrecognizedLogin(u16),
    /// A queued outbound message too long for its 16-bit length prefix.
    MessageTooLong,
    /// A malformed numeric argument in a debug command.
    InvalidNumber,
    /// A debug command with too few arguments.
    MissingArgument,
}

// ---------------------------------------------------------------------
// Little-endian integers
// ---------------------------------------------------------------------

/// The value of two bytes read little-endian.
pub open spec fn le16(b0: u8, b1: u8) -> u16 {
    (b0 + 256 * b1) as u16
}

/// The value of four bytes read little-endian.
pub open spec fn le32(b0: u8, b1: u8, b2: u8, b3: u8) -> u32 {
    (b0 + 256 * b1 + 65536 * b2 + 16777216 * b3) as u32
}

/// The two little-endian bytes of a 16-bit value.
pub open spec fn u16_le(v: u16) -> Seq<u8> {
    seq![(v % 256) as u8, (v / 256) as u8]
}

/// The four little-endian bytes of a 32-bit value.
pub open spec fn u32_le(v: u32) -> Seq<u8> {
    seq![
        (v % 256) as u8,
        ((v / 256) % 256) as u8,
        ((v / 65536) % 256) as u8,
        ((v / 16777216) % 256) as u8,
    ]
}

/// Encoding a 16-bit value and reading the bytes back is the identity.
pub proof fn lemma_u16_le_round_trip(v: u16)
    ensures
        le16(u16_le(v)[0], u16_le(v)[1]) == v,
{
}

/// Encoding a 32-bit value and reading the bytes back is the identity.
pub proof fn lemma_u32_le_round_trip(v: u32)
    ensures
        le32(u32_le(v)[0], u32_le(v)[1], u32_le(v)[2], u32_le(v)[3]) == v,
{
}

pub fn read_u8(buf: &Vec<u8>, pos: &mut usize) -> (r: Result<u8, DecodeError>)
    requires
        *old(pos) <= buf@.len(),
    ensures
        match r {
            Ok(b) => *old(pos) + 1 <= buf@.len() && b == buf@[*old(pos) as int] && *final(pos)
                == *old(pos) + 1,
            Err(e) => e == DecodeError::UnexpectedEnd && buf@.len() < *old(pos) + 1 && *final(pos)
                == *old(pos),
        },
{
    if buf.len() - *pos < 1 {
        Err(DecodeError::UnexpectedEnd)
    } else {
        let b = buf[*pos];
        *pos = *pos + 1;
        Ok(b)
    }
}

pub fn read_u16_le(buf: &Vec<u8>, pos: &mut usize) -> (r: Result<u16, DecodeError>)
    requires
        *old(pos) <= buf@.len(),
    ensures
        match r {
            Ok(v) => *old(pos) + 2 <= buf@.len() && v == le16(
                buf@[*old(pos) as int],
                buf@[*old(pos) + 1],
            ) && *final(pos) == *old(pos) + 2,
            Err(e) => e == DecodeError::UnexpectedEnd && buf@.len() < *old(pos) + 2 && *final(pos)
                == *old(pos),
        },
{
    if buf.len() - *pos < 2 {
        Err(DecodeError::UnexpectedEnd)
    } else {
        let b0 = buf[*pos];
        let b1 = buf[*pos + 1];
        *pos = *pos + 2;
        Ok((b0 as u16) + 256 * (b1 as u16))
    }
}

pub fn read_u32_le(buf: &Vec<u8>, pos: &mut usize) -> (r: Result<u32, DecodeError>)
    requires
        *old(pos) <= buf@.len(),
    ensures
        match r {
            Ok(v) => *old(pos) + 4 <= buf@.len() && v == le32(
                buf@[*old(pos) as int],
                buf@[*old(pos) + 1],
                buf@[*old(pos) + 2],
                buf@[*old(pos) + 3],
            ) && *final(pos) == *old(pos) + 4,
            Err(e) => e == DecodeError::UnexpectedEnd && buf@.len() < *old(pos) + 4 && *final(pos)
                == *old(pos),
        },
{
    if buf.len() - *pos < 4 {
        Err(DecodeError::UnexpectedEnd)
    } else {
        let b0 = buf[*pos];
        let b1 = buf[*pos + 1];
        let b2 = buf[*pos + 2];
        let b3 = buf[*pos + 3];
        *pos = *pos + 4;
        Ok((b0 as u32) + 256 * (b1 as u32) + 65536 * (b2 as u32) + 16777216 * (b3 as u32))
    }
}

pub fn write_u8(buf: &mut Vec<u8>, v: u8)
    ensures
        final(buf)@ == old(buf)@.push(v),
{
    buf.push(v);
}

pub fn write_u16_le(buf: &mut Vec<u8>, v: u16)
    ensures
        final(buf)@ == old(buf)@ + u16_le(v),
{
    buf.push((v % 256) as u8);
    buf.push((v / 256) as u8);
    assert(final(buf)@ =~= old(buf)@ + u16_le(v));
}

pub fn write_u32_le(buf: &mut Vec<u8>, v: u32)
    ensures
        final(buf)@ == old(buf)@ + u32_le(v),
{
    buf.push((v % 256) as u8);
    buf.push(((v / 256) % 256) as u8);
    buf.push(((v / 65536) % 256) as u8);
    buf.push(((v / 16777216) % 256) as u8);
    assert(final(buf)@ =~= old(buf)@ + u32_le(v));
}

// ---------------------------------------------------------------------
// Raw byte runs
// ---------------------------------------------------------------------

/// `n` copies of one byte.
pub open spec fn repeated_bytes(b: u8, n: int) -> Seq<u8> {
    Seq::new(n as nat, |i: int| b)
}

pub fn write_repeated_number(buf: &mut Vec<u8>, number: u8, length: usize)
    ensures
        final(buf)@ == old(buf)@ + repeated_bytes(number, length as int),
{
    let mut i: usize = 0;
    while i < length
        invariant
            i <= length,
            buf@ == old(buf)@ + repeated_bytes(number, i as int),
        decreases length - i,
    {
        buf.push(number);
        assert(buf@ =~= old(buf)@ + repeated_bytes(number, i + 1));
        i = i + 1;
    }
    assert(buf@ =~= old(buf)@ + repeated_bytes(number, length as int));
}

pub fn write_zeroes(buf: &mut Vec<u8>, length: usize)
    ensures
        final(buf)@ == old(buf)@ + repeated_bytes(0, length as int),
{
    write_repeated_number(buf, 0, length)
}

/// Appends a copy of `s` to `buf`.
pub fn write_bytes(buf: &mut Vec<u8>, s: &Vec<u8>)
    ensures
        final(buf)@ == old(buf)@ + s@,
{
    let mut i: usize = 0;
    while i < s.len()
        invariant
            i <= s@.len(),
            buf@ == old(buf)@ + s@.take(i as int),
        decreases s@.len() - i,
    {
        buf.push(s[i]);
        assert(buf@ =~= old(buf)@ + s@.take(i + 1));
        i = i + 1;
    }
    assert(buf@ =~= old(buf)@ + s@);
}

/// Consumes `bytes` bytes without interpreting them.  Used where the
/// meaning of the received bytes is unknown.
pub fn skip(buf: &Vec<u8>, pos: &mut usize, bytes: u16) -> (r: Result<(), DecodeError>)
    requires
        *old(pos) <= buf@.len(),
    ensures
        match r {
            Ok(_) => *old(pos) + bytes <= buf@.len() && *final(pos) == *old(pos) + bytes,
            Err(e) => e == DecodeError::UnexpectedEnd && buf@.len() < *old(pos) + bytes && *final(pos) == *old(pos),
        },
{
    if buf.len() - *pos < bytes as usize {
        Err(DecodeError::UnexpectedEnd)
    } else {
        *pos = *pos + bytes as usize;
        Ok(())
    }
}

// ---------------------------------------------------------------------
// Packed 4-bit pairs
// ---------------------------------------------------------------------

pub fn read_u4(buf: &Vec<u8>, pos: &mut usize) -> (r: Result<(u8, u8), DecodeError>)
    requires
        *old(pos) <= buf@.len(),
    ensures
        match r {
            Ok(hl) => *old(pos) + 1 <= buf@.len() && hl.0 == buf@[*old(pos) as int] / 16 && hl.1
                == buf@[*old(pos) as int] % 16 && hl.0 < 16 && hl.1 < 16 && *final(pos) == *old(pos)
                + 1,
            Err(e) => e == DecodeError::UnexpectedEnd && buf@.len() < *old(pos) + 1 && *final(pos)
                == *old(pos),
        },
{
    match read_u8(buf, pos) {
        Ok(byte) => Ok((byte / 16, byte % 16)),
        Err(e) => Err(e),
    }
}

/// Packs two 4-bit values into one byte, high nibble first.
pub fn write_u4(buf: &mut Vec<u8>, high: u8, low: u8)
    requires
        high < 16,
        low < 16,
    ensures
        final(buf)@ == old(buf)@.push((high * 16 + low) as u8),
{
    buf.push(high * 16 + low);
}

// ---------------------------------------------------------------------
// Gender
// ---------------------------------------------------------------------

/// The gender byte: 0/1 before revision 501, 1/2 from 501 on; 1 is male
/// in both eras.
pub open spec fn gender_byte(g: Gender, p: Protocol) -> u8 {
    match g {
        Gender::Male => 1,
        Gender::Female => if p.spec_number() < 501 {
            0
        } else {
            2
        },
    }
}

/// An unrecognized gender byte is not a decode failure: the documented
/// leniency defaults it to male.
pub open spec fn decode_gender(b: u8, p: Protocol) -> Gender {
    if b == 1 {
        Gender::Male
    } else if b == 0 && p.spec_number() < 501 {
        Gender::Female
    } else if b == 2 && p.spec_number() >= 501 {
        Gender::Female
    } else {
        Gender::Male
    }
}

pub fn read_gender(buf: &Vec<u8>, pos: &mut usize, protocol: Protocol) -> (r: Result<
    Gender,
    DecodeError,
>)
    requires
        *old(pos) <= buf@.len(),
    ensures
        match r {
            Ok(g) => *old(pos) + 1 <= buf@.len() && g == decode_gender(
                buf@[*old(pos) as int],
                protocol,
            ) && *final(pos) == *old(pos) + 1,
            Err(e) => e == DecodeError::UnexpectedEnd && buf@.len() < *old(pos) + 1 && *final(pos)
                == *old(pos),
        },
{
    let byte = match read_u8(buf, pos) {
        Ok(b) => b,
        Err(e) => {
            return Err(e);
        },
    };
    let gender = if byte == 1 {
        Gender::Male
    } else if byte == 0 && protocol.number() < 501 {
        Gender::Female
    } else if byte == 2 && protocol.number() >= 501 {
        Gender::Female
    } else {
        Gender::Male
    };
    Ok(gender)
}

pub fn write_gender(buf: &mut Vec<u8>, gender: Gender, protocol: Protocol)
    ensures
        final(buf)@ == old(buf)@.push(gender_byte(gender, protocol)),
{
    match gender {
        Gender::Male => write_u8(buf, 1),
        Gender::Female => {
            if protocol.number() < 501 {
                write_u8(buf, 0)
            } else {
                write_u8(buf, 2)
            }
        },
    }
}

/// Encoding a gender under any version and decoding it under the same
/// version is the identity.
pub proof fn lemma_gender_round_trip(g: Gender, p: Protocol)
    ensures
        decode_gender(gender_byte(g, p), p) == g,
{
}

// ---------------------------------------------------------------------
// Outfit colors
// ---------------------------------------------------------------------

/// The fixed 3-byte outfit color encoding, unconditional on version:
/// legs|shoes packed, head|body packed, then the opaque byte verbatim.
pub open spec fn outfit_colors_bytes(o: Outfit) -> Seq<u8> {
    seq![(o.legs * 16 + o.shoes) as u8, (o.head * 16 + o.body) as u8, o.unknown_byte]
}

/// The outfit read back from its 3-byte encoding.
pub open spec fn decode_outfit_colors(s: Seq<u8>) -> Outfit {
    Outfit {
        head: (s[1] / 16) as u8,
        body: (s[1] % 16) as u8,
        legs: (s[0] / 16) as u8,
        shoes: (s[0] % 16) as u8,
        unknown_byte: s[2],
    }
}

pub fn read_outfit_colors(buf: &Vec<u8>, pos: &mut usize) -> (r: Result<Outfit, DecodeError>)
    requires
        *old(pos) <= buf@.len(),
    ensures
        match r {
            Ok(o) => *old(pos) + 3 <= buf@.len() && o == decode_outfit_colors(
                buf@.subrange(*old(pos) as int, *old(pos) + 3),
            ) && o.wf() && *final(pos) == *old(pos) + 3,
            Err(e) => e == DecodeError::UnexpectedEnd && buf@.len() < *old(pos) + 3 && *final(pos)
                == *old(pos),
        },
{
    if buf.len() - *pos < 3 {
        return Err(DecodeError::UnexpectedEnd);
    }
    let (legs, shoes) = match read_u4(buf, pos) {
        Ok(hl) => hl,
        Err(e) => {
            return Err(e);
        },
    };
    let (head, body) = match read_u4(buf, pos) {
        Ok(hl) => hl,
        Err(e) => {
            return Err(e);
        },
    };
    let unknown_byte = match read_u8(buf, pos) {
        Ok(b) => b,
        Err(e) => {
            return Err(e);
        },
    };
    Ok(Outfit { head, body, legs, shoes, unknown_byte })
}

pub fn write_outfit_colors(buf: &mut Vec<u8>, outfit: Outfit)
    requires
        outfit.wf(),
    ensures
        final(buf)@ == old(buf)@ + outfit_colors_bytes(outfit),
{
    write_u4(buf, outfit.legs, outfit.shoes);
    write_u4(buf, outfit.head, outfit.body);
    write_u8(buf, outfit.unknown_byte);
    assert(final(buf)@ =~= old(buf)@ + outfit_colors_bytes(outfit));
}

pub fn write_outfit_colors_with_unknown_byte(buf: &mut Vec<u8>, outfit: Outfit, unknown_byte: u8)
    requires
        outfit.wf(),
    ensures
        final(buf)@ == old(buf)@ + outfit_colors_bytes(
            Outfit {
                head: outfit.head,
                body: outfit.body,
                legs: outfit.legs,
                shoes: outfit.shoes,
                unknown_byte,
            },
        ),
{
    write_u4(buf, outfit.legs, outfit.shoes);
    write_u4(buf, outfit.head, outfit.body);
    write_u8(buf, unknown_byte);
    assert(final(buf)@ =~= old(buf)@ + outfit_colors_bytes(
        Outfit {
            head: outfit.head,
            body: outfit.body,
            legs: outfit.legs,
            shoes: outfit.shoes,
            unknown_byte,
        },
    ));
}

/// Encoding outfit colors and decoding the 3 bytes is the identity.
pub proof fn lemma_outfit_colors_round_trip(o: Outfit)
    requires
        o.wf(),
    ensures
        decode_outfit_colors(outfit_colors_bytes(o)) == o,
{
}

// ---------------------------------------------------------------------
// Positions
// ---------------------------------------------------------------------

/// How many bytes a position occupies under this version.
pub open spec fn position_len(p: Protocol) -> int {
    if p == Protocol::Tibia103 {
        2
    } else {
        5
    }
}

/// Pre-300 clients transmit x and y as single bytes with z implicit at
/// the standard ground layer; 300-and-later transmit 16-bit x and y plus
/// an explicit z byte.
pub open spec fn position_bytes(pos: Position, p: Protocol) -> Seq<u8> {
    if p == Protocol::Tibia103 {
        seq![(pos.x % 256) as u8, (pos.y % 256) as u8]
    } else {
        u16_le(pos.x) + u16_le(pos.y) + seq![pos.z]
    }
}

/// The position read back from its encoding (`s` is exactly the encoded
/// window).
pub open spec fn decode_position(s: Seq<u8>, p: Protocol) -> Position {
    if p == Protocol::Tibia103 {
        Position { x: s[0] as u16, y: s[1] as u16, z: 7 }
    } else {
        Position { x: le16(s[0], s[1]), y: le16(s[2], s[3]), z: s[4] }
    }
}

pub fn read_position(buf: &Vec<u8>, pos: &mut usize, protocol: Protocol) -> (r: Result<
    Position,
    DecodeError,
>)
    requires
        *old(pos) <= buf@.len(),
    ensures
        match r {
            Ok(v) => *old(pos) + position_len(protocol) <= buf@.len() && v == decode_position(
                buf@.subrange(*old(pos) as int, *old(pos) + position_len(protocol)),
                protocol,
            ) && *final(pos) == *old(pos) + position_len(protocol),
            Err(e) => e == DecodeError::UnexpectedEnd && buf@.len() < *old(pos) + position_len(
                protocol,
            ) && *final(pos) == *old(pos),
        },
{
    if protocol == Protocol::Tibia103 {
        if buf.len() - *pos < 2 {
            return Err(DecodeError::UnexpectedEnd);
        }
        let x = match read_u8(buf, pos) {
            Ok(b) => b,
            Err(e) => {
                return Err(e);
            },
        };
        let y = match read_u8(buf, pos) {
            Ok(b) => b,
            Err(e) => {
                return Err(e);
            },
        };
        Ok(Position::new(x as u16, y as u16, 7))
    } else {
        if buf.len() - *pos < 5 {
            return Err(DecodeError::UnexpectedEnd);
        }
        let x = match read_u16_le(buf, pos) {
            Ok(v) => v,
            Err(e) => {
                return Err(e);
            },
        };
        let y = match read_u16_le(buf, pos) {
            Ok(v) => v,
            Err(e) => {
                return Err(e);
            },
        };
        let z = match read_u8(buf, pos) {
            Ok(b) => b,
            Err(e) => {
                return Err(e);
            },
        };
        Ok(Position::new(x, y, z))
    }
}

pub fn write_position(buf: &mut Vec<u8>, position: Position, protocol: Protocol)
    ensures
        final(buf)@ == old(buf)@ + position_bytes(position, protocol),
{
    if protocol == Protocol::Tibia103 {
        write_u8(buf, (position.x % 256) as u8);
        write_u8(buf, (position.y % 256) as u8);
        assert(final(buf)@ =~= old(buf)@ + position_bytes(position, protocol));
    } else {
        write_u16_le(buf, position.x);
        write_u16_le(buf, position.y);
        write_u8(buf, position.z);
        assert(final(buf)@ =~= old(buf)@ + position_bytes(position, protocol));
    }
}

/// Encoding a position and decoding it under the same version is the
/// identity.  Under the oldest revision the single-byte form loses
/// nothing exactly when x and y fit in a byte and z is the standard
/// ground layer, which is the only layer that era transmits.
pub proof fn lemma_position_round_trip(pos: Position, p: Protocol)
    requires
        p == Protocol::Tibia103 ==> pos.x < 256 && pos.y < 256 && pos.z == 7,
    ensures
        decode_position(position_bytes(pos, p), p) == pos,
{
    if p == Protocol::Tibia103 {
    } else {
        lemma_u16_le_round_trip(pos.x);
        lemma_u16_le_round_trip(pos.y);
        assert(position_bytes(pos, p)[0] == u16_le(pos.x)[0]);
        assert(position_bytes(pos, p)[1] == u16_le(pos.x)[1]);
        assert(position_bytes(pos, p)[2] == u16_le(pos.y)[0]);
        assert(position_bytes(pos, p)[3] == u16_le(pos.y)[1]);
        assert(position_bytes(pos, p)[4] == pos.z);
    }
}

// ---------------------------------------------------------------------
// Outbound headers
// ---------------------------------------------------------------------

/// Clients after revision 400 receive a 2-byte opcode; 400-and-earlier a
/// single byte, with a 4-byte all-zero pad inserted before it for the
/// very oldest revision.
pub open spec fn header_bytes(h: HeaderSend, p: Protocol) -> Seq<u8> {
    if p.spec_number() > 400 {
        u16_le(h.spec_opcode())
    } else if p == Protocol::Tibia103 {
        seq![0u8, 0u8, 0u8, 0u8, (h.spec_opcode() % 256) as u8]
    } else {
        seq![(h.spec_opcode() % 256) as u8]
    }
}

pub fn write_header(buf: &mut Vec<u8>, header: HeaderSend, protocol: Protocol)
    ensures
        final(buf)@ == old(buf)@ + header_bytes(header, protocol),
{
    if protocol.number() > 400 {
        write_u16_le(buf, header.opcode());
    } else {
        if protocol == Protocol::Tibia103 {
            write_zeroes(buf, 4);
        }
        write_u8(buf, (header.opcode() % 256) as u8);
        assert(final(buf)@ =~= old(buf)@ + header_bytes(header, protocol));
    }
}

/// The single-byte opcode read back equals the opcode written, for every
/// opcode small enough for the one-byte form; the 2-byte form is exact
/// for all opcodes.  Together with [`lemma_u16_le_round_trip`] this is
/// the header round trip.
pub proof fn lemma_header_round_trip(h: HeaderSend, p: Protocol)
    ensures
        p.spec_number() > 400 ==> le16(header_bytes(h, p)[0], header_bytes(h, p)[1])
            == h.spec_opcode(),
        p.spec_number() <= 400 && p != Protocol::Tibia103 ==> header_bytes(h, p)[0]
            == h.spec_opcode(),
        p == Protocol::Tibia103 ==> header_bytes(h, p)[4] == h.spec_opcode(),
{
    if p.spec_number() > 400 {
        lemma_u16_le_round_trip(h.spec_opcode());
    }
}

// ---------------------------------------------------------------------
// Strings
// ---------------------------------------------------------------------

/// The prefix of `s` before its first null byte (all of `s` if it has
/// none).
pub open spec fn bytes_until_null(s: Seq<u8>) -> Seq<u8>
    decreases s.len(),
{
    if s.len() == 0 {
        s
    } else if s[0] == 0 {
        Seq::empty()
    } else {
        seq![s[0]] + bytes_until_null(s.skip(1))
    }
}

proof fn lemma_bytes_until_null_take(w: Seq<u8>, n: int)
    requires
        0 <= n <= w.len(),
        forall|i: int| 0 <= i < n ==> w[i] != 0,
        n < w.len() ==> w[n] == 0,
    ensures
        bytes_until_null(w) == w.take(n),
    decreases n,
{
    if n == 0 {
        if w.len() == 0 {
            assert(bytes_until_null(w) =~= w.take(0));
        } else {
            assert(w[0] == 0);
            assert(bytes_until_null(w) =~= w.take(0));
        }
    } else {
        assert(w[0] != 0);
        lemma_bytes_until_null_take(w.skip(1), n - 1);
        assert(bytes_until_null(w) == seq![w[0]] + w.skip(1).take(n - 1));
        assert(seq![w[0]] + w.skip(1).take(n - 1) =~= w.take(n));
    }
}

/// Reads a string of at most `max_size` bytes, stopping at a null byte,
/// and consumes exactly `max_size` bytes from the buffer regardless of
/// where the null appeared: trailing bytes after the null are skipped.
pub fn read_string(buf: &Vec<u8>, pos: &mut usize, max_size: u16) -> (r: Result<
    Vec<u8>,
    DecodeError,
>)
    requires
        *old(pos) <= buf@.len(),
    ensures
        match r {
            Ok(s) => *old(pos) + max_size <= buf@.len() && s@ == bytes_until_null(
                buf@.subrange(*old(pos) as int, *old(pos) + max_size),
            ) && *final(pos) == *old(pos) + max_size,
            Err(e) => e == DecodeError::UnexpectedEnd && buf@.len() < *old(pos) + max_size && *final(pos) == *old(pos),
        },
{
    let start = *pos;
    if buf.len() - start < max_size as usize {
        return Err(DecodeError::UnexpectedEnd);
    }
    let ghost window = buf@.subrange(start as int, start as int + max_size as int);
    let end = start + max_size as usize;
    let mut out: Vec<u8> = Vec::new();
    let mut k: usize = start;
    while k < end && buf[k] != 0
        invariant
            start <= k <= end,
            end == start + max_size,
            end <= buf@.len(),
            window == buf@.subrange(start as int, start as int + max_size as int),
            out@ == window.take(k - start),
            forall|i: int| 0 <= i < k - start ==> window[i] != 0,
        decreases end - k,
    {
        out.push(buf[k]);
        assert(out@ =~= window.take(k - start + 1));
        k = k + 1;
    }
    proof {
        lemma_bytes_until_null_take(window, k - start);
    }
    *pos = end;
    Ok(out)
}

/// A 2-byte little-endian count followed by the raw bytes.
pub fn write_length_and_string(buf: &mut Vec<u8>, string: &Vec<u8>)
    requires
        string@.len() <= 0xffff,
    ensures
        final(buf)@ == old(buf)@ + u16_le(string@.len() as u16) + string@,
{
    write_u16_le(buf, string.len() as u16);
    write_bytes(buf, string);
}

/// The raw bytes followed by a single null terminator.
pub fn write_null_terminated_string(buf: &mut Vec<u8>, string: &Vec<u8>)
    ensures
        final(buf)@ == old(buf)@ + string@ + seq![0u8],
{
    write_bytes(buf, string);
    write_u8(buf, 0);
    assert(final(buf)@ =~= old(buf)@ + string@ + seq![0u8]);
}

/// A fixed-width field: the string truncated to `length` bytes, or
/// null-padded up to `length` bytes.
pub open spec fn fixed_length_bytes(s: Seq<u8>, length: int) -> Seq<u8> {
    if s.len() > length {
        s.take(length)
    } else {
        s + repeated_bytes(0, length - s.len())
    }
}

pub fn write_string_with_fixed_length(buf: &mut Vec<u8>, string: &Vec<u8>, length: u16)
    ensures
        final(buf)@ == old(buf)@ + fixed_length_bytes(string@, length as int),
{
    if string.len() > length as usize {
        let mut i: usize = 0;
        while i < length as usize
            invariant
                length as usize <= string@.len(),
                i <= length,
                buf@ == old(buf)@ + string@.take(i as int),
            decreases length - i,
        {
            buf.push(string[i]);
            assert(buf@ =~= old(buf)@ + string@.take(i + 1));
            i = i + 1;
        }
    } else {
        write_bytes(buf, string);
        write_zeroes(buf, length as usize - string.len());
        assert(final(buf)@ =~= old(buf)@ + fixed_length_bytes(string@, length as int));
    }
}

// ---------------------------------------------------------------------
// Encoded sizes across versions
// ---------------------------------------------------------------------

/// The documented byte-count table of the version-dependent primitives:
/// a position is 2 bytes under the oldest revision and 5 from revision
/// 300 on; a header opcode is 1 byte up to revision 400 (padded to 5 for
/// the very oldest) and 2 bytes after; gender and outfit colors have
/// fixed widths under every version.
pub proof fn lemma_encoded_lengths(p: Protocol, h: HeaderSend, g: Gender, o: Outfit, pos: Position)
    ensures
        position_bytes(pos, p).len() == (if p == Protocol::Tibia103 { 2int } else { 5int }),
        header_bytes(h, p).len() == (if p.spec_number() > 400 {
            2int
        } else if p == Protocol::Tibia103 {
            5int
        } else {
            1int
        }),
        outfit_colors_bytes(o).len() == 3,
{
}

/// For any two supported versions in order, encoding the same position
/// never shrinks its byte count.  Gender and outfit colors are single
/// fixed-width fields under every version, so only the position and the
/// header change width; the header does not follow this rule — the very
/// oldest revision pads its single opcode byte to five — so its exact
/// widths stand in [`lemma_encoded_lengths`].
pub proof fn lemma_version_monotonicity(p1: Protocol, p2: Protocol, pos: Position)
    requires
        p1.spec_number() < p2.spec_number(),
    ensures
        position_bytes(pos, p1).len() <= position_bytes(pos, p2).len(),
{
}

} // verus!
