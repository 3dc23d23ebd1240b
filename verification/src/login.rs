//! The login dispatcher: classifying a fresh connection's first frame
//! and parsing each handshake flow's fixed-format fields.
//!
//! The very first 16-bit length field received on a fresh socket is the
//! sole discriminant between the three flows.

use vstd::prelude::*;
use crate::player::Player;
use crate::position::Position;
use crate::persistence;
use crate::wire::{
    bytes_until_null, decode_gender, decode_outfit_colors, le16, le32, read_gender, read_outfit_colors,
    read_string, read_u16_le, read_u32_le, skip, u16_le, write_length_and_string, write_u8,
    write_u16_le, DecodeError,
};
use crate::Protocol;

verus! {

/// The three handshake flows a first frame can select.
#[derive(Debug, Copy, Clone, Eq, PartialEq, Structural)]
pub enum LoginFlow {
    ExistingLogin,
    NewCharacter,
    AccountLogin,
}

/// The flow the first frame's length selects: exactly one length means
/// an existing character entering the game, three fixed lengths mean
/// character creation, and every other length is an account login.
pub open spec fn spec_classify_login(length: u16) -> LoginFlow {
    if length == 67 {
        LoginFlow::ExistingLogin
    } else if length == 221 || length == 223 || length == 723 {
        LoginFlow::NewCharacter
    } else {
        LoginFlow::AccountLogin
    }
}

pub fn classify_login(length: u16) -> (r: LoginFlow)
    ensures
        r == spec_classify_login(length),
{
    if length == 67 {
        LoginFlow::ExistingLogin
    } else if length == 221 || length == 223 || length == 723 {
        LoginFlow::NewCharacter
    } else {
        LoginFlow::AccountLogin
    }
}

/// The numeric protocol revision an existing-login or new-character
/// payload carries (after the 5-byte preamble).
pub open spec fn login_protocol_number(payload: Seq<u8>) -> u16 {
    le16(payload[5], payload[6])
}

/// The existing-login flow: skip the preamble, read the revision, then
/// the fixed-width name and password fields.  No password check is
/// performed.  Fails when the payload is shorter than the 67-byte
/// layout, and when the revision is unsupported.
pub fn player_login(payload: &Vec<u8>) -> (r: Result<(Vec<u8>, Vec<u8>, Protocol), DecodeError>)
    ensures
        match r {
            Ok(v) => {
                &&& payload@.len() >= 67
                &&& Protocol::spec_from_number(login_protocol_number(payload@)) == Some(v.2)
                &&& v.0@ == bytes_until_null(payload@.subrange(7, 37))
                &&& v.1@ == bytes_until_null(payload@.subrange(37, 67))
            },
            Err(e) => match e {
                DecodeError::UnexpectedEnd => payload@.len() < 67,
                DecodeError::UnknownProtocol(n) => payload@.len() >= 7 && n
                    == login_protocol_number(payload@) && Protocol::spec_from_number(n) is None,
                _ => false,
            },
        },
{
    let mut pos: usize = 0;
    if payload.len() < 67 {
        return Err(DecodeError::UnexpectedEnd);
    }
    let _ = skip(payload, &mut pos, 5);
    let number = match read_u16_le(payload, &mut pos) {
        Ok(n) => n,
        Err(e) => {
            return Err(e);
        },
    };
    let protocol = match Protocol::try_from_number(number) {
        Some(p) => p,
        None => {
            return Err(DecodeError::UnknownProtocol(number));
        },
    };
    let name = match read_string(payload, &mut pos, 30) {
        Ok(s) => s,
        Err(e) => {
            return Err(e);
        },
    };
    let password = match read_string(payload, &mut pos, 30) {
        Ok(s) => s,
        Err(e) => {
            return Err(e);
        },
    };
    Ok((name, password, protocol))
}

/// Where each field of a new-character payload starts, by the layout the
/// revision uses: preamble, revision, name, password, gender, a 2-byte
/// skip, outfit colors, real name, location (narrower under the oldest
/// revision), email, and — only for the revisions that have it — a long
/// free-text comment.
pub open spec fn new_character_location_len(p: Protocol) -> int {
    if p == Protocol::Tibia103 {
        48
    } else {
        50
    }
}

pub open spec fn new_character_comment_len(p: Protocol) -> int {
    if 400 <= p.spec_number() <= 501 {
        500
    } else {
        0
    }
}

/// The total payload length the new-character layout needs.
pub open spec fn new_character_needed_len(p: Protocol) -> int {
    7 + 30 + 30 + 1 + 2 + 3 + 50 + new_character_location_len(p) + 50
        + new_character_comment_len(p)
}

/// What the new-character flow produces: a fresh player record seeded
/// with default stats and skills, wearing the outfit colors and gender
/// the client chose.
pub fn create_new_player(payload: &Vec<u8>, next_id: u32, respawn_location: Position) -> (r:
    Result<(Player, Protocol), DecodeError>)
    ensures
        match r {
            Ok(v) => {
                &&& payload@.len() >= 7
                &&& Protocol::spec_from_number(login_protocol_number(payload@)) == Some(v.1)
                &&& payload@.len() >= new_character_needed_len(v.1)
                &&& v.0.id == next_id
                &&& v.0.name@ == bytes_until_null(payload@.subrange(7, 37))
                &&& v.0.position == respawn_location
                &&& v.0.skills == persistence::default_skills()
                &&& v.0.stats == persistence::default_stats()
                &&& v.0.gender == decode_gender(payload@[67], v.1)
                &&& v.0.outfit == decode_outfit_colors(payload@.subrange(70, 73))
                &&& v.0.outfit.wf()
            },
            Err(e) => match e {
                DecodeError::UnexpectedEnd => payload@.len() < 7 || (match Protocol::spec_from_number(
                    login_protocol_number(payload@),
                ) {
                    Some(p) => payload@.len() < new_character_needed_len(p),
                    None => false,
                }),
                DecodeError::UnknownProtocol(n) => payload@.len() >= 7 && n
                    == login_protocol_number(payload@) && Protocol::spec_from_number(n) is None,
                _ => false,
            },
        },
{
    let mut pos: usize = 0;
    if payload.len() < 7 {
        return Err(DecodeError::UnexpectedEnd);
    }
    let _ = skip(payload, &mut pos, 5);
    let number = match read_u16_le(payload, &mut pos) {
        Ok(n) => n,
        Err(e) => {
            return Err(e);
        },
    };
    let protocol = match Protocol::try_from_number(number) {
        Some(p) => p,
        None => {
            return Err(DecodeError::UnknownProtocol(number));
        },
    };
    let name = match read_string(payload, &mut pos, 30) {
        Ok(s) => s,
        Err(e) => {
            return Err(e);
        },
    };
    let _password = match read_string(payload, &mut pos, 30) {
        Ok(s) => s,
        Err(e) => {
            return Err(e);
        },
    };
    let gender = match read_gender(payload, &mut pos, protocol) {
        Ok(g) => g,
        Err(e) => {
            return Err(e);
        },
    };
    match skip(payload, &mut pos, 2) {
        Ok(_) => (),
        Err(e) => {
            return Err(e);
        },
    }
    let outfit_colors = match read_outfit_colors(payload, &mut pos) {
        Ok(o) => o,
        Err(e) => {
            return Err(e);
        },
    };
    let _real_name = match read_string(payload, &mut pos, 50) {
        Ok(s) => s,
        Err(e) => {
            return Err(e);
        },
    };
    let location_size: u16 = if protocol == Protocol::Tibia103 {
        48
    } else {
        50
    };
    let _location = match read_string(payload, &mut pos, location_size) {
        Ok(s) => s,
        Err(e) => {
            return Err(e);
        },
    };
    let _email = match read_string(payload, &mut pos, 50) {
        Ok(s) => s,
        Err(e) => {
            return Err(e);
        },
    };
    if protocol.number() >= 400 && protocol.number() <= 501 {
        let _comment = match read_string(payload, &mut pos, 500) {
            Ok(s) => s,
            Err(e) => {
                return Err(e);
            },
        };
    }
    let mut player = persistence::create_player(&name, next_id, respawn_location);
    player.outfit = outfit_colors;
    player.gender = gender;
    Ok((player, protocol))
}

/// A successful account login's parsed fields.
#[derive(Debug)]
pub struct AccountLogin {
    pub account_number: u32,
    pub password: Vec<u8>,
    pub protocol: Protocol,
}

/// The numeric protocol revision an account-login payload carries
/// (after its 3-byte preamble).
pub open spec fn account_protocol_number(payload: Seq<u8>) -> u16 {
    le16(payload[3], payload[4])
}

/// The account-login flow: skip the preamble, read the revision — a
/// revision below the first that supports account login is a hard
/// failure — then the account number and a variable-length password.
pub fn account_login(payload: &Vec<u8>, message_length: u16) -> (r: Result<
    AccountLogin,
    DecodeError,
>)
    ensures
        match r {
            Ok(v) => {
                &&& payload@.len() >= 11
                &&& Protocol::spec_from_number(account_protocol_number(payload@)) == Some(
                    v.protocol,
                )
                &&& v.protocol.spec_number() >= 650
                &&& v.account_number == le32(payload@[5], payload@[6], payload@[7], payload@[8])
                &&& ({
                    let pw_len = le16(payload@[9], payload@[10]);
                    &&& payload@.len() >= 11 + pw_len
                    &&& v.password@ == bytes_until_null(
                        payload@.subrange(11, 11 + pw_len as int),
                    )
                })
            },
            Err(e) => match e {
                DecodeError::UnexpectedEnd => payload@.len() < 11 || (match Protocol::spec_from_number(
                    account_protocol_number(payload@),
                ) {
                    Some(p) => p.spec_number() >= 650 && payload@.len() < 11 + le16(
                        payload@[9],
                        payload@[10],
                    ),
                    None => false,
                }),
                DecodeError::UnknownProtocol(n) => payload@.len() >= 5 && n
                    == account_protocol_number(payload@) && Protocol::spec_from_number(n) is None,
                DecodeError::UnrecognizedLogin(l) => {
                    &&& l == message_length
                    &&& payload@.len() >= 5
                    &&& (match Protocol::spec_from_number(account_protocol_number(payload@)) {
                        Some(p) => p.spec_number() < 650,
                        None => false,
                    })
                },
                _ => false,
            },
        },
{
    let mut pos: usize = 0;
    if payload.len() < 11 {
        if payload.len() < 5 {
            return Err(DecodeError::UnexpectedEnd);
        }
        // The revision is still readable; report an unsupported or
        // pre-account revision precisely.
        let _ = skip(payload, &mut pos, 3);
        let number = match read_u16_le(payload, &mut pos) {
            Ok(n) => n,
            Err(e) => {
                return Err(e);
            },
        };
        match Protocol::try_from_number(number) {
            Some(p) => {
                if p.number() < 650 {
                    return Err(DecodeError::UnrecognizedLogin(message_length));
                }
                return Err(DecodeError::UnexpectedEnd);
            },
            None => {
                return Err(DecodeError::UnknownProtocol(number));
            },
        }
    }
    let _ = skip(payload, &mut pos, 3);
    let number = match read_u16_le(payload, &mut pos) {
        Ok(n) => n,
        Err(e) => {
            return Err(e);
        },
    };
    let protocol = match Protocol::try_from_number(number) {
        Some(p) => p,
        None => {
            return Err(DecodeError::UnknownProtocol(number));
        },
    };
    if protocol.number() < 650 {
        return Err(DecodeError::UnrecognizedLogin(message_length));
    }
    let account_number = match read_u32_le(payload, &mut pos) {
        Ok(n) => n,
        Err(e) => {
            return Err(e);
        },
    };
    let password_length = match read_u16_le(payload, &mut pos) {
        Ok(n) => n,
        Err(e) => {
            return Err(e);
        },
    };
    let password = match read_string(payload, &mut pos, password_length) {
        Ok(s) => s,
        Err(e) => {
            return Err(e);
        },
    };
    Ok(AccountLogin { account_number, password, protocol })
}

/// The one-character roster reply an account login is answered with,
/// naming this server's own address for the client to reconnect to.
pub open spec fn character_list_bytes(ip: (u8, u8, u8, u8), port: u16) -> Seq<u8> {
    seq![0x64u8, 0x01u8] + u16_le(6) + seq![0x50u8, 0x6cu8, 0x61u8, 0x79u8, 0x65u8, 0x72u8]
        + u16_le(7) + seq![0x6cu8, 0x65u8, 0x67u8, 0x62u8, 0x6fu8, 0x6eu8, 0x65u8] + seq![
        ip.0,
        ip.1,
        ip.2,
        ip.3,
    ] + u16_le(port)
}

/// Builds the roster ("character list") reply: one character named
/// "Player" on the world "legbone", reachable at the given IPv4 address
/// and port.
pub fn prepare_character_list(ip: (u8, u8, u8, u8), port: u16) -> (r: Vec<u8>)
    ensures
        r@ == character_list_bytes(ip, port),
{
    let mut character_name: Vec<u8> = Vec::new();
    character_name.push(0x50);
    character_name.push(0x6c);
    character_name.push(0x61);
    character_name.push(0x79);
    character_name.push(0x65);
    character_name.push(0x72);
    let mut world: Vec<u8> = Vec::new();
    world.push(0x6c);
    world.push(0x65);
    world.push(0x67);
    world.push(0x62);
    world.push(0x6f);
    world.push(0x6e);
    world.push(0x65);
    let mut buf: Vec<u8> = Vec::new();
    write_u8(&mut buf, 0x64);
    write_u8(&mut buf, 1);
    write_length_and_string(&mut buf, &character_name);
    write_length_and_string(&mut buf, &world);
    write_u8(&mut buf, ip.0);
    write_u8(&mut buf, ip.1);
    write_u8(&mut buf, ip.2);
    write_u8(&mut buf, ip.3);
    write_u16_le(&mut buf, port);
    assert(buf@ =~= character_list_bytes(ip, port));
    buf
}

} // verus!
