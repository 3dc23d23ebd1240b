//! The debug-command interpreter: a chat message with the debug escape
//! prefix, honored only when the server was started with debug commands
//! enabled, selects one of these developer actions.
//!
//! A malformed command is fully recovered locally: the caller substitutes
//! a generic visual placeholder response.  One command requests a panic
//! on purpose and is handed up as such.

use vstd::prelude::*;
use crate::character::{CharacterOutfit, CharacterUpdateType, Direction, Outfit};
use crate::chat::ChatType;
use crate::constants::{MagicEffect, ObjectUpdateType};
use crate::header::HeaderSend;
use crate::player::{InventorySlot, Player};
use crate::session::{
    change_direction_bytes, chat_bytes, equipped_item_bytes, error_bytes, green_chat_bytes,
    header_only_bytes, info_bytes, magic_effect_bytes, message_of_the_day_bytes, skills_bytes,
    stats_bytes, status_message_bytes, update_character_bytes, update_object_bytes,
    update_outfit_bytes, user_info_bytes, user_list_bytes, world_light_bytes, Connection,
};
use crate::text::{
    all_dec_digits, all_hex_digits, dec_value, hex2_bytes, hex_value, join_spaces, parse_u16_hex,
    parse_u8_dec, render_u8_hex2, spec_join_spaces, spec_tokenize, tokenize,
};
use crate::wire::{write_bytes, DecodeError};
use crate::Protocol;

verus! {

/// How a debug command ended.
pub enum DebugOutcome {
    Done,
    /// The command requested a deliberate panic, with its text.
    Panic(Vec<u8>),
}

/// The spec-level counterpart of [`DebugOutcome`], with a failure case
/// for a malformed command.
pub enum DebugResultSpec {
    Done,
    Panic(Seq<u8>),
    Failed(DecodeError),
}

/// Everything one debug command does: the messages it queues, the
/// counters it leaves behind, and how it ends.
pub struct DebugEffect {
    pub queued: Seq<Seq<u8>>,
    pub next_motd_number: u16,
    pub next_chat_type: u8,
    pub result: DebugResultSpec,
}

/// The visible characters, as the character-table command prints them.
pub open spec fn ascii_table_run() -> Seq<u8> {
    Seq::new(96, |i: int| (0x20 + i) as u8)
}

/// The chat rendering debug text uses: older clients get a normal line
/// with a sender, newer ones a red anonymous line.
pub open spec fn debug_chat_message(p: Protocol, player: Player, msg: Seq<u8>) -> Seq<u8> {
    if p.spec_number() < 501 {
        chat_bytes(p, ChatType::Normal, msg, Some(player.name@), Some(player.position))
    } else {
        chat_bytes(p, ChatType::RedConsoleWhiteScreen, msg, None, Some(player.position))
    }
}

pub open spec fn hex_prefix_text() -> Seq<u8> {
    seq![0x30u8, 0x78u8]
}

pub open spec fn chat_type_prefix_text() -> Seq<u8> {
    seq![
        0x63u8, 0x68u8, 0x61u8, 0x74u8, 0x5fu8, 0x74u8, 0x79u8, 0x70u8, 0x65u8, 0x3du8, 0x30u8,
        0x78u8,
    ]
}

/// Whether a decimal token parses into a byte.
pub open spec fn dec_u8_ok(t: Seq<u8>) -> bool {
    t.len() > 0 && all_dec_digits(t) && dec_value(t) <= 255
}

/// Whether a hexadecimal token parses into a 16-bit value.
pub open spec fn hex_u16_ok(t: Seq<u8>) -> bool {
    t.len() > 0 && all_hex_digits(t) && hex_value(t) <= 0xffff
}

/// Whether a hexadecimal token parses into a byte.
pub open spec fn hex_u8_ok(t: Seq<u8>) -> bool {
    t.len() > 0 && all_hex_digits(t) && hex_value(t) <= 0xff
}

/// What one debug command does, given the session's protocol, player,
/// counters and the command's tokens (the command word first).
pub open spec fn debug_effect(
    p: Protocol,
    player: Player,
    motd: u16,
    chat_counter: u8,
    tokens: Seq<Seq<u8>>,
) -> DebugEffect {
    let cmd = tokens[0];
    let args = tokens.skip(1);
    let rest = spec_join_spaces(args);
    let unchanged = DebugEffect {
        queued: Seq::empty(),
        next_motd_number: motd,
        next_chat_type: chat_counter,
        result: DebugResultSpec::Done,
    };
    if cmd == word_chars() {
        DebugEffect { queued: seq![debug_chat_message(p, player, ascii_table_run())], ..unchanged }
    } else if cmd == word_char() {
        if args.len() < 1 {
            DebugEffect { result: DebugResultSpec::Failed(DecodeError::MissingArgument), ..unchanged }
        } else if !hex_u8_ok(args[0]) {
            DebugEffect { result: DebugResultSpec::Failed(DecodeError::InvalidNumber), ..unchanged }
        } else {
            let c = hex_value(args[0]) as u8;
            DebugEffect {
                queued: seq![
                    debug_chat_message(
                        p,
                        player,
                        hex_prefix_text() + hex2_bytes(c) + seq![0x3du8] + seq![c],
                    ),
                ],
                ..unchanged
            }
        }
    } else if cmd == word_echo() {
        DebugEffect { queued: seq![header_only_bytes(p, HeaderSend::Echo)], ..unchanged }
    } else if cmd == word_item() {
        if args.len() < 2 {
            DebugEffect { result: DebugResultSpec::Failed(DecodeError::MissingArgument), ..unchanged }
        } else if !dec_u8_ok(args[0]) {
            DebugEffect { result: DebugResultSpec::Failed(DecodeError::InvalidNumber), ..unchanged }
        } else if InventorySlot::spec_from_number(dec_value(args[0]) as u8) is None {
            DebugEffect {
                result: DebugResultSpec::Failed(
                    DecodeError::InvalidInventorySlot(dec_value(args[0]) as u8),
                ),
                ..unchanged
            }
        } else if !hex_u16_ok(args[1]) {
            DebugEffect { result: DebugResultSpec::Failed(DecodeError::InvalidNumber), ..unchanged }
        } else {
            DebugEffect {
                queued: seq![
                    equipped_item_bytes(
                        p,
                        InventorySlot::spec_from_number(dec_value(args[0]) as u8).unwrap(),
                        hex_value(args[1]) as u16,
                        0,
                    ),
                ],
                ..unchanged
            }
        }
    } else if cmd == word_i() {
        if args.len() < 1 {
            DebugEffect { result: DebugResultSpec::Failed(DecodeError::MissingArgument), ..unchanged }
        } else if !hex_u16_ok(args[0]) {
            DebugEffect { result: DebugResultSpec::Failed(DecodeError::InvalidNumber), ..unchanged }
        } else {
            DebugEffect {
                queued: seq![
                    equipped_item_bytes(
                        p,
                        InventorySlot::RightHand,
                        hex_value(args[0]) as u16,
                        0,
                    ),
                ],
                ..unchanged
            }
        }
    } else if cmd == word_stats() {
        DebugEffect { queued: seq![stats_bytes(p, player.stats)], ..unchanged }
    } else if cmd == word_skills() {
        DebugEffect { queued: seq![skills_bytes(p, player.skills)], ..unchanged }
    } else if cmd == word_me() {
        if args.len() < 1 {
            DebugEffect { result: DebugResultSpec::Failed(DecodeError::MissingArgument), ..unchanged }
        } else if !dec_u8_ok(args[0]) {
            DebugEffect { result: DebugResultSpec::Failed(DecodeError::InvalidNumber), ..unchanged }
        } else if MagicEffect::spec_from_number(dec_value(args[0]) as u8) is None {
            DebugEffect {
                result: DebugResultSpec::Failed(
                    DecodeError::InvalidMagicEffect(dec_value(args[0]) as u8),
                ),
                ..unchanged
            }
        } else {
            DebugEffect {
                queued: seq![
                    magic_effect_bytes(
                        p,
                        MagicEffect::spec_from_number(dec_value(args[0]) as u8).unwrap(),
                        player.position,
                    ),
                ],
                ..unchanged
            }
        }
    } else if cmd == word_wlight() {
        if args.len() < 1 {
            DebugEffect { result: DebugResultSpec::Failed(DecodeError::MissingArgument), ..unchanged }
        } else if !dec_u8_ok(args[0]) {
            DebugEffect { result: DebugResultSpec::Failed(DecodeError::InvalidNumber), ..unchanged }
        } else {
            DebugEffect {
                queued: seq![world_light_bytes(p, dec_value(args[0]) as u8)],
                ..unchanged
            }
        }
    } else if cmd == word_plight() {
        if args.len() < 1 {
            DebugEffect { result: DebugResultSpec::Failed(DecodeError::MissingArgument), ..unchanged }
        } else if !dec_u8_ok(args[0]) {
            DebugEffect { result: DebugResultSpec::Failed(DecodeError::InvalidNumber), ..unchanged }
        } else {
            DebugEffect {
                queued: seq![
                    update_character_bytes(
                        p,
                        player.id,
                        CharacterUpdateType::LightLevel,
                        dec_value(args[0]) as u8,
                    ),
                ],
                ..unchanged
            }
        }
    } else if cmd == word_userlist() {
        DebugEffect { queued: seq![user_list_bytes(p, player.name@)], ..unchanged }
    } else if cmd == word_userinfo() {
        if args.len() < 1 {
            DebugEffect { result: DebugResultSpec::Failed(DecodeError::MissingArgument), ..unchanged }
        } else {
            DebugEffect { queued: seq![user_info_bytes(p, args[0])], ..unchanged }
        }
    } else if cmd == word_info() {
        DebugEffect { queued: seq![info_bytes(p, rest)], ..unchanged }
    } else if cmd == word_error() {
        DebugEffect { queued: seq![error_bytes(p, rest)], ..unchanged }
    } else if cmd == word_error2() {
        DebugEffect { queued: seq![error_bytes(p, rest)], ..unchanged }
    } else if cmd == word_motd() {
        DebugEffect {
            queued: seq![message_of_the_day_bytes(p, motd, rest)],
            next_motd_number: (if motd == 0xffff { 0u16 } else { (motd + 1) as u16 }),
            ..unchanged
        }
    } else if cmd == word_status() {
        DebugEffect { queued: seq![status_message_bytes(p, rest)], ..unchanged }
    } else if cmd == word_panic() {
        DebugEffect { result: DebugResultSpec::Panic(rest), ..unchanged }
    } else if cmd == word_chat() {
        let bumped = DebugEffect {
            next_chat_type: (if chat_counter == 0xff { 0u8 } else { (chat_counter + 1) as u8 }),
            ..unchanged
        };
        match ChatType::spec_from_number(chat_counter) {
            Some(ct) => DebugEffect {
                queued: seq![
                    chat_bytes(
                        p,
                        ct,
                        chat_type_prefix_text() + hex2_bytes(chat_counter),
                        Some(player.name@),
                        Some(player.position),
                    ),
                ],
                ..bumped
            },
            None => DebugEffect {
                result: DebugResultSpec::Failed(DecodeError::InvalidChatQualifier),
                ..bumped
            },
        }
    } else if cmd == word_outfit() {
        if args.len() < 1 {
            DebugEffect { result: DebugResultSpec::Failed(DecodeError::MissingArgument), ..unchanged }
        } else if !dec_u8_ok(args[0]) {
            DebugEffect { result: DebugResultSpec::Failed(DecodeError::InvalidNumber), ..unchanged }
        } else if CharacterOutfit::spec_from_number(dec_value(args[0]) as u8) is None {
            DebugEffect {
                result: DebugResultSpec::Failed(
                    DecodeError::InvalidCharacterOutfit(dec_value(args[0]) as u8),
                ),
                ..unchanged
            }
        } else if p == Protocol::Tibia103 {
            unchanged
        } else {
            DebugEffect {
                queued: seq![
                    update_outfit_bytes(
                        p,
                        player.id,
                        CharacterOutfit::spec_from_number(dec_value(args[0]) as u8).unwrap(),
                        Outfit { head: 0, body: 0, legs: 0, shoes: 0, unknown_byte: 0 },
                    ),
                ],
                ..unchanged
            }
        }
    } else if cmd == word_cd() {
        if args.len() < 1 {
            DebugEffect { result: DebugResultSpec::Failed(DecodeError::MissingArgument), ..unchanged }
        } else if !dec_u8_ok(args[0]) {
            DebugEffect { result: DebugResultSpec::Failed(DecodeError::InvalidNumber), ..unchanged }
        } else if Direction::spec_from_number(dec_value(args[0]) as u8) is None {
            DebugEffect {
                result: DebugResultSpec::Failed(
                    DecodeError::InvalidDirection(dec_value(args[0]) as u8),
                ),
                ..unchanged
            }
        } else if p == Protocol::Tibia103 {
            unchanged
        } else {
            DebugEffect {
                queued: seq![
                    update_object_bytes(p, player.position, ObjectUpdateType::Update, 1)
                        + change_direction_bytes(
                        p,
                        player.id,
                        Direction::spec_from_number(dec_value(args[0]) as u8).unwrap(),
                    ),
                ],
                ..unchanged
            }
        }
    } else if cmd == word_gc() {
        DebugEffect { queued: seq![green_chat_bytes(p, rest)], ..unchanged }
    } else if cmd == word_u0() {
        DebugEffect { queued: seq![header_only_bytes(p, HeaderSend::Unknown0x0000)], ..unchanged }
    } else if cmd == word_uf() {
        DebugEffect { queued: seq![header_only_bytes(p, HeaderSend::Unknown0x000f)], ..unchanged }
    } else if cmd == word_u33() {
        DebugEffect { queued: seq![header_only_bytes(p, HeaderSend::Unknown0x0033)], ..unchanged }
    } else if cmd == word_u34() {
        DebugEffect { queued: seq![header_only_bytes(p, HeaderSend::Unknown0x0034)], ..unchanged }
    } else {
        DebugEffect {
            queued: seq![magic_effect_bytes(p, MagicEffect::Puff, player.position)],
            ..unchanged
        }
    }
}

fn eq_bytes(a: &Vec<u8>, b: &Vec<u8>) -> (r: bool)
    ensures
        r <==> a@ == b@,
{
    if a.len() != b.len() {
        assert(a@.len() != b@.len());
        return false;
    }
    let mut i: usize = 0;
    while i < a.len()
        invariant
            i <= a@.len(),
            a@.len() == b@.len(),
            forall|j: int| 0 <= j < i ==> a@[j] == b@[j],
        decreases a@.len() - i,
    {
        if a[i] != b[i] {
            return false;
        }
        i = i + 1;
    }
    proof {
        assert(a@ =~= b@);
    }
    true
}


pub open spec fn word_chars() -> Seq<u8> {
    seq![0x63u8, 0x68u8, 0x61u8, 0x72u8, 0x73u8]
}


pub open spec fn word_char() -> Seq<u8> {
    seq![0x63u8, 0x68u8, 0x61u8, 0x72u8]
}


pub open spec fn word_echo() -> Seq<u8> {
    seq![0x65u8, 0x63u8, 0x68u8, 0x6fu8]
}


pub open spec fn word_item() -> Seq<u8> {
    seq![0x69u8, 0x74u8, 0x65u8, 0x6du8]
}


pub open spec fn word_i() -> Seq<u8> {
    seq![0x69u8]
}


pub open spec fn word_stats() -> Seq<u8> {
    seq![0x73u8, 0x74u8, 0x61u8, 0x74u8, 0x73u8]
}


pub open spec fn word_skills() -> Seq<u8> {
    seq![0x73u8, 0x6bu8, 0x69u8, 0x6cu8, 0x6cu8, 0x73u8]
}


pub open spec fn word_me() -> Seq<u8> {
    seq![0x6du8, 0x65u8]
}


pub open spec fn word_wlight() -> Seq<u8> {
    seq![0x77u8, 0x6cu8, 0x69u8, 0x67u8, 0x68u8, 0x74u8]
}


pub open spec fn word_plight() -> Seq<u8> {
    seq![0x70u8, 0x6cu8, 0x69u8, 0x67u8, 0x68u8, 0x74u8]
}


pub open spec fn word_userlist() -> Seq<u8> {
    seq![0x75u8, 0x73u8, 0x65u8, 0x72u8, 0x6cu8, 0x69u8, 0x73u8, 0x74u8]
}


pub open spec fn word_userinfo() -> Seq<u8> {
    seq![0x75u8, 0x73u8, 0x65u8, 0x72u8, 0x69u8, 0x6eu8, 0x66u8, 0x6fu8]
}


pub open spec fn word_info() -> Seq<u8> {
    seq![0x69u8, 0x6eu8, 0x66u8, 0x6fu8]
}


pub open spec fn word_error() -> Seq<u8> {
    seq![0x65u8, 0x72u8, 0x72u8, 0x6fu8, 0x72u8]
}


pub open spec fn word_error2() -> Seq<u8> {
    seq![0x65u8, 0x72u8, 0x72u8, 0x6fu8, 0x72u8, 0x32u8]
}


pub open spec fn word_motd() -> Seq<u8> {
    seq![0x6du8, 0x6fu8, 0x74u8, 0x64u8]
}


pub open spec fn word_status() -> Seq<u8> {
    seq![0x73u8, 0x74u8, 0x61u8, 0x74u8, 0x75u8, 0x73u8]
}


pub open spec fn word_panic() -> Seq<u8> {
    seq![0x70u8, 0x61u8, 0x6eu8, 0x69u8, 0x63u8]
}


pub open spec fn word_chat() -> Seq<u8> {
    seq![0x63u8, 0x68u8, 0x61u8, 0x74u8]
}


pub open spec fn word_outfit() -> Seq<u8> {
    seq![0x6fu8, 0x75u8, 0x74u8, 0x66u8, 0x69u8, 0x74u8]
}


pub open spec fn word_cd() -> Seq<u8> {
    seq![0x63u8, 0x64u8]
}


pub open spec fn word_gc() -> Seq<u8> {
    seq![0x67u8, 0x63u8]
}


pub open spec fn word_u0() -> Seq<u8> {
    seq![0x75u8, 0x30u8]
}


pub open spec fn word_uf() -> Seq<u8> {
    seq![0x75u8, 0x66u8]
}


pub open spec fn word_u33() -> Seq<u8> {
    seq![0x75u8, 0x33u8, 0x33u8]
}


pub open spec fn word_u34() -> Seq<u8> {
    seq![0x75u8, 0x33u8, 0x34u8]
}


fn word_chars_exec() -> (r: Vec<u8>)
    ensures
        r@ == word_chars(),
{
    let mut out: Vec<u8> = Vec::new();
    out.push(0x63);
    out.push(0x68);
    out.push(0x61);
    out.push(0x72);
    out.push(0x73);
    assert(out@ =~= word_chars());
    out
}


fn word_char_exec() -> (r: Vec<u8>)
    ensures
        r@ == word_char(),
{
    let mut out: Vec<u8> = Vec::new();
    out.push(0x63);
    out.push(0x68);
    out.push(0x61);
    out.push(0x72);
    assert(out@ =~= word_char());
    out
}


fn word_echo_exec() -> (r: Vec<u8>)
    ensures
        r@ == word_echo(),
{
    let mut out: Vec<u8> = Vec::new();
    out.push(0x65);
    out.push(0x63);
    out.push(0x68);
    out.push(0x6f);
    assert(out@ =~= word_echo());
    out
}


fn word_item_exec() -> (r: Vec<u8>)
    ensures
        r@ == word_item(),
{
    let mut out: Vec<u8> = Vec::new();
    out.push(0x69);
    out.push(0x74);
    out.push(0x65);
    out.push(0x6d);
    assert(out@ =~= word_item());
    out
}


fn word_i_exec() -> (r: Vec<u8>)
    ensures
        r@ == word_i(),
{
    let mut out: Vec<u8> = Vec::new();
    out.push(0x69);
    assert(out@ =~= word_i());
    out
}


fn word_stats_exec() -> (r: Vec<u8>)
    ensures
        r@ == word_stats(),
{
    let mut out: Vec<u8> = Vec::new();
    out.push(0x73);
    out.push(0x74);
    out.push(0x61);
    out.push(0x74);
    out.push(0x73);
    assert(out@ =~= word_stats());
    out
}


fn word_skills_exec() -> (r: Vec<u8>)
    ensures
        r@ == word_skills(),
{
    let mut out: Vec<u8> = Vec::new();
    out.push(0x73);
    out.push(0x6b);
    out.push(0x69);
    out.push(0x6c);
    out.push(0x6c);
    out.push(0x73);
    assert(out@ =~= word_skills());
    out
}


fn word_me_exec() -> (r: Vec<u8>)
    ensures
        r@ == word_me(),
{
    let mut out: Vec<u8> = Vec::new();
    out.push(0x6d);
    out.push(0x65);
    assert(out@ =~= word_me());
    out
}


fn word_wlight_exec() -> (r: Vec<u8>)
    ensures
        r@ == word_wlight(),
{
    let mut out: Vec<u8> = Vec::new();
    out.push(0x77);
    out.push(0x6c);
    out.push(0x69);
    out.push(0x67);
    out.push(0x68);
    out.push(0x74);
    assert(out@ =~= word_wlight());
    out
}


fn word_plight_exec() -> (r: Vec<u8>)
    ensures
        r@ == word_plight(),
{
    let mut out: Vec<u8> = Vec::new();
    out.push(0x70);
    out.push(0x6c);
    out.push(0x69);
    out.push(0x67);
    out.push(0x68);
    out.push(0x74);
    assert(out@ =~= word_plight());
    out
}


fn word_userlist_exec() -> (r: Vec<u8>)
    ensures
        r@ == word_userlist(),
{
    let mut out: Vec<u8> = Vec::new();
    out.push(0x75);
    out.push(0x73);
    out.push(0x65);
    out.push(0x72);
    out.push(0x6c);
    out.push(0x69);
    out.push(0x73);
    out.push(0x74);
    assert(out@ =~= word_userlist());
    out
}


fn word_userinfo_exec() -> (r: Vec<u8>)
    ensures
        r@ == word_userinfo(),
{
    let mut out: Vec<u8> = Vec::new();
    out.push(0x75);
    out.push(0x73);
    out.push(0x65);
    out.push(0x72);
    out.push(0x69);
    out.push(0x6e);
    out.push(0x66);
    out.push(0x6f);
    assert(out@ =~= word_userinfo());
    out
}


fn word_info_exec() -> (r: Vec<u8>)
    ensures
        r@ == word_info(),
{
    let mut out: Vec<u8> = Vec::new();
    out.push(0x69);
    out.push(0x6e);
    out.push(0x66);
    out.push(0x6f);
    assert(out@ =~= word_info());
    out
}


fn word_error_exec() -> (r: Vec<u8>)
    ensures
        r@ == word_error(),
{
    let mut out: Vec<u8> = Vec::new();
    out.push(0x65);
    out.push(0x72);
    out.push(0x72);
    out.push(0x6f);
    out.push(0x72);
    assert(out@ =~= word_error());
    out
}


fn word_error2_exec() -> (r: Vec<u8>)
    ensures
        r@ == word_error2(),
{
    let mut out: Vec<u8> = Vec::new();
    out.push(0x65);
    out.push(0x72);
    out.push(0x72);
    out.push(0x6f);
    out.push(0x72);
    out.push(0x32);
    assert(out@ =~= word_error2());
    out
}


fn word_motd_exec() -> (r: Vec<u8>)
    ensures
        r@ == word_motd(),
{
    let mut out: Vec<u8> = Vec::new();
    out.push(0x6d);
    out.push(0x6f);
    out.push(0x74);
    out.push(0x64);
    assert(out@ =~= word_motd());
    out
}


fn word_status_exec() -> (r: Vec<u8>)
    ensures
        r@ == word_status(),
{
    let mut out: Vec<u8> = Vec::new();
    out.push(0x73);
    out.push(0x74);
    out.push(0x61);
    out.push(0x74);
    out.push(0x75);
    out.push(0x73);
    assert(out@ =~= word_status());
    out
}


fn word_panic_exec() -> (r: Vec<u8>)
    ensures
        r@ == word_panic(),
{
    let mut out: Vec<u8> = Vec::new();
    out.push(0x70);
    out.push(0x61);
    out.push(0x6e);
    out.push(0x69);
    out.push(0x63);
    assert(out@ =~= word_panic());
    out
}


fn word_chat_exec() -> (r: Vec<u8>)
    ensures
        r@ == word_chat(),
{
    let mut out: Vec<u8> = Vec::new();
    out.push(0x63);
    out.push(0x68);
    out.push(0x61);
    out.push(0x74);
    assert(out@ =~= word_chat());
    out
}


fn word_outfit_exec() -> (r: Vec<u8>)
    ensures
        r@ == word_outfit(),
{
    let mut out: Vec<u8> = Vec::new();
    out.push(0x6f);
    out.push(0x75);
    out.push(0x74);
    out.push(0x66);
    out.push(0x69);
    out.push(0x74);
    assert(out@ =~= word_outfit());
    out
}


fn word_cd_exec() -> (r: Vec<u8>)
    ensures
        r@ == word_cd(),
{
    let mut out: Vec<u8> = Vec::new();
    out.push(0x63);
    out.push(0x64);
    assert(out@ =~= word_cd());
    out
}


fn word_gc_exec() -> (r: Vec<u8>)
    ensures
        r@ == word_gc(),
{
    let mut out: Vec<u8> = Vec::new();
    out.push(0x67);
    out.push(0x63);
    assert(out@ =~= word_gc());
    out
}


fn word_u0_exec() -> (r: Vec<u8>)
    ensures
        r@ == word_u0(),
{
    let mut out: Vec<u8> = Vec::new();
    out.push(0x75);
    out.push(0x30);
    assert(out@ =~= word_u0());
    out
}


fn word_uf_exec() -> (r: Vec<u8>)
    ensures
        r@ == word_uf(),
{
    let mut out: Vec<u8> = Vec::new();
    out.push(0x75);
    out.push(0x66);
    assert(out@ =~= word_uf());
    out
}


fn word_u33_exec() -> (r: Vec<u8>)
    ensures
        r@ == word_u33(),
{
    let mut out: Vec<u8> = Vec::new();
    out.push(0x75);
    out.push(0x33);
    out.push(0x33);
    assert(out@ =~= word_u33());
    out
}


fn word_u34_exec() -> (r: Vec<u8>)
    ensures
        r@ == word_u34(),
{
    let mut out: Vec<u8> = Vec::new();
    out.push(0x75);
    out.push(0x33);
    out.push(0x34);
    assert(out@ =~= word_u34());
    out
}


impl Connection {
    /// Runs one tokenized debug command against the spec table
    /// [`debug_effect`].
    #[verifier::rlimit(100)]
    #[verifier::spinoff_prover]
    fn debug_command(&mut self, tokens: &Vec<Vec<u8>>) -> (r: Result<DebugOutcome, DecodeError>)
        requires
            tokens@.len() >= 1,
            old(self).player.outfit.wf(),
        ensures
            final(self).protocol == old(self).protocol,
            final(self).player_id == old(self).player_id,
            final(self).debug_commands_enabled == old(self).debug_commands_enabled,
            final(self).player == old(self).player,
            ({
                let eff = debug_effect(
                    old(self).protocol,
                    old(self).player,
                    old(self).next_motd_number,
                    old(self).next_chat_type,
                    tokens@.map_values(|t: Vec<u8>| t@),
                );
                &&& final(self).next_motd_number == eff.next_motd_number
                &&& final(self).next_chat_type == eff.next_chat_type
                &&& final(self).queued() == old(self).queued() + eff.queued
                &&& (match r {
                    Ok(DebugOutcome::Done) => eff.result is Done,
                    Ok(DebugOutcome::Panic(text)) => eff.result == DebugResultSpec::Panic(text@),
                    Err(e) => eff.result == DebugResultSpec::Failed(e),
                })
            }),
    {
        let ghost toks = tokens@.map_values(|t: Vec<u8>| t@);
        let ghost eff = debug_effect(
            self.protocol,
            self.player,
            self.next_motd_number,
            self.next_chat_type,
            toks,
        );
        let cmd = &tokens[0];
        let mut args: Vec<Vec<u8>> = Vec::new();
        let mut k: usize = 1;
        while k < tokens.len()
            invariant
                1 <= k <= tokens@.len(),
                args@.len() == k - 1,
                forall|j: int| 0 <= j < k - 1 ==> (#[trigger] args@[j])@ == tokens@[j + 1]@,
            decreases tokens@.len() - k,
        {
            let item = crate::text::subvec(&tokens[k], 0, tokens[k].len());
            args.push(item);
            k = k + 1;
        }
        proof {
            assert(args@.map_values(|t: Vec<u8>| t@) =~= toks.skip(1));
        }
        let ghost gargs = toks.skip(1);
        if eq_bytes(cmd, &word_chars_exec()) {
            let msg = ascii_table_run_exec();
            let message = self.debug_chat(&msg);
            assert(message@.len() > 0);
            self.queue_message(message);
            assert(self.queued() =~= old(self).queued() + eff.queued);
            Ok(DebugOutcome::Done)
        } else if eq_bytes(cmd, &word_char_exec()) {
            if args.len() < 1 {
                return Err(DecodeError::MissingArgument);
            }
            let c = match crate::text::parse_u8_hex(&args[0]) {
                Ok(v) => v,
                Err(e) => {
                    return Err(e);
                },
            };
            let mut msg: Vec<u8> = Vec::new();
            msg.push(0x30);
            msg.push(0x78);
            let hx = render_u8_hex2(c);
            write_bytes(&mut msg, &hx);
            msg.push(0x3d);
            msg.push(c);
            assert(msg@ =~= hex_prefix_text() + hex2_bytes(c) + seq![0x3du8] + seq![c]);
            let message = self.debug_chat(&msg);
            assert(message@.len() > 0);
            self.queue_message(message);
            assert(self.queued() =~= old(self).queued() + eff.queued);
            Ok(DebugOutcome::Done)
        } else if eq_bytes(cmd, &word_echo_exec()) {
            let mut buf: Vec<u8> = Vec::new();
            crate::wire::write_header(&mut buf, HeaderSend::Echo, self.protocol);
            assert(buf@.len() > 0);
            self.queue_message(buf);
            assert(self.queued() =~= old(self).queued() + eff.queued);
            Ok(DebugOutcome::Done)
        } else if eq_bytes(cmd, &word_item_exec()) {
            if args.len() < 2 {
                return Err(DecodeError::MissingArgument);
            }
            let slot_number = match parse_u8_dec(&args[0]) {
                Ok(v) => v,
                Err(e) => {
                    return Err(e);
                },
            };
            let slot = match InventorySlot::try_from_number(slot_number) {
                Some(s) => s,
                None => {
                    return Err(DecodeError::InvalidInventorySlot(slot_number));
                },
            };
            let item = match parse_u16_hex(&args[1]) {
                Ok(v) => v,
                Err(e) => {
                    return Err(e);
                },
            };
            let message = self.prepare_equipped_item(slot, item, 0);
            assert(message@.len() > 0);
            self.queue_message(message);
            assert(self.queued() =~= old(self).queued() + eff.queued);
            Ok(DebugOutcome::Done)
        } else if eq_bytes(cmd, &word_i_exec()) {
            if args.len() < 1 {
                return Err(DecodeError::MissingArgument);
            }
            let item = match parse_u16_hex(&args[0]) {
                Ok(v) => v,
                Err(e) => {
                    return Err(e);
                },
            };
            let message = self.prepare_equipped_item(InventorySlot::RightHand, item, 0);
            assert(message@.len() > 0);
            self.queue_message(message);
            assert(self.queued() =~= old(self).queued() + eff.queued);
            Ok(DebugOutcome::Done)
        } else if eq_bytes(cmd, &word_stats_exec()) {
            let message = self.prepare_stats();
            assert(message@.len() > 0);
            self.queue_message(message);
            assert(self.queued() =~= old(self).queued() + eff.queued);
            Ok(DebugOutcome::Done)
        } else if eq_bytes(cmd, &word_skills_exec()) {
            let message = self.prepare_skills();
            assert(message@.len() > 0);
            self.queue_message(message);
            assert(self.queued() =~= old(self).queued() + eff.queued);
            Ok(DebugOutcome::Done)
        } else if eq_bytes(cmd, &word_me_exec()) {
            if args.len() < 1 {
                return Err(DecodeError::MissingArgument);
            }
            let effect_number = match parse_u8_dec(&args[0]) {
                Ok(v) => v,
                Err(e) => {
                    return Err(e);
                },
            };
            let effect = match MagicEffect::try_from_number(effect_number) {
                Some(m) => m,
                None => {
                    return Err(DecodeError::InvalidMagicEffect(effect_number));
                },
            };
            let message = self.prepare_magic_effect(effect, self.player.position);
            assert(message@.len() > 0);
            self.queue_message(message);
            assert(self.queued() =~= old(self).queued() + eff.queued);
            Ok(DebugOutcome::Done)
        } else if eq_bytes(cmd, &word_wlight_exec()) {
            if args.len() < 1 {
                return Err(DecodeError::MissingArgument);
            }
            let level = match parse_u8_dec(&args[0]) {
                Ok(v) => v,
                Err(e) => {
                    return Err(e);
                },
            };
            let message = self.prepare_world_light(level);
            assert(message@.len() > 0);
            self.queue_message(message);
            assert(self.queued() =~= old(self).queued() + eff.queued);
            Ok(DebugOutcome::Done)
        } else if eq_bytes(cmd, &word_plight_exec()) {
            if args.len() < 1 {
                return Err(DecodeError::MissingArgument);
            }
            let level = match parse_u8_dec(&args[0]) {
                Ok(v) => v,
                Err(e) => {
                    return Err(e);
                },
            };
            let message = self.prepare_update_character(
                self.player.id,
                CharacterUpdateType::LightLevel,
                level,
            );
            assert(message@.len() > 0);
            self.queue_message(message);
            assert(self.queued() =~= old(self).queued() + eff.queued);
            Ok(DebugOutcome::Done)
        } else if eq_bytes(cmd, &word_userlist_exec()) {
            let message = self.prepare_user_list();
            assert(message@.len() > 0);
            self.queue_message(message);
            assert(self.queued() =~= old(self).queued() + eff.queued);
            Ok(DebugOutcome::Done)
        } else if eq_bytes(cmd, &word_userinfo_exec()) {
            if args.len() < 1 {
                return Err(DecodeError::MissingArgument);
            }
            let message = self.prepare_user_info(&args[0]);
            assert(message@.len() > 0);
            self.queue_message(message);
            assert(self.queued() =~= old(self).queued() + eff.queued);
            Ok(DebugOutcome::Done)
        } else {
            self.debug_command_tail(cmd, &args, Ghost(toks))
        }
    }


    /// The second half of the command table; reached when the command
    /// word matched none of the first half.
    #[verifier::rlimit(100)]
    #[verifier::spinoff_prover]
    fn debug_command_tail(&mut self, cmd: &Vec<u8>, args: &Vec<Vec<u8>>, Ghost(toks): Ghost<
        Seq<Seq<u8>>,
    >) -> (r: Result<DebugOutcome, DecodeError>)
        requires
            old(self).player.outfit.wf(),
            toks.len() >= 1,
            cmd@ == toks[0],
            args@.map_values(|t: Vec<u8>| t@) == toks.skip(1),
            cmd@ != word_chars(),
            cmd@ != word_char(),
            cmd@ != word_echo(),
            cmd@ != word_item(),
            cmd@ != word_i(),
            cmd@ != word_stats(),
            cmd@ != word_skills(),
            cmd@ != word_me(),
            cmd@ != word_wlight(),
            cmd@ != word_plight(),
            cmd@ != word_userlist(),
            cmd@ != word_userinfo(),
        ensures
            final(self).protocol == old(self).protocol,
            final(self).player_id == old(self).player_id,
            final(self).debug_commands_enabled == old(self).debug_commands_enabled,
            final(self).player == old(self).player,
            ({
                let eff = debug_effect(
                    old(self).protocol,
                    old(self).player,
                    old(self).next_motd_number,
                    old(self).next_chat_type,
                    toks,
                );
                &&& final(self).next_motd_number == eff.next_motd_number
                &&& final(self).next_chat_type == eff.next_chat_type
                &&& final(self).queued() == old(self).queued() + eff.queued
                &&& (match r {
                    Ok(DebugOutcome::Done) => eff.result is Done,
                    Ok(DebugOutcome::Panic(text)) => eff.result == DebugResultSpec::Panic(text@),
                    Err(e) => eff.result == DebugResultSpec::Failed(e),
                })
            }),
    {
        let ghost eff = debug_effect(
            self.protocol,
            self.player,
            self.next_motd_number,
            self.next_chat_type,
            toks,
        );
        let ghost gargs = toks.skip(1);
        if eq_bytes(cmd, &word_info_exec()) {
            let rest = join_spaces(&args);
            let message = self.prepare_info(&rest);
            assert(message@.len() > 0);
            self.queue_message(message);
            assert(self.queued() =~= old(self).queued() + eff.queued);
            Ok(DebugOutcome::Done)
        } else if eq_bytes(cmd, &word_error_exec()) {
            let rest = join_spaces(&args);
            let message = self.prepare_error(&rest);
            assert(message@.len() > 0);
            self.queue_message(message);
            assert(self.queued() =~= old(self).queued() + eff.queued);
            Ok(DebugOutcome::Done)
        } else if eq_bytes(cmd, &word_error2_exec()) {
            let rest = join_spaces(&args);
            let message = self.prepare_error(&rest);
            assert(message@.len() > 0);
            self.queue_message(message);
            assert(self.queued() =~= old(self).queued() + eff.queued);
            Ok(DebugOutcome::Done)
        } else if eq_bytes(cmd, &word_motd_exec()) {
            let rest = join_spaces(&args);
            let message = self.prepare_message_of_the_day(self.next_motd_number, &rest);
            assert(message@.len() > 0);
            self.queue_message(message);
            self.next_motd_number = if self.next_motd_number == 0xffff {
                0
            } else {
                self.next_motd_number + 1
            };
            assert(self.queued() =~= old(self).queued() + eff.queued);
            Ok(DebugOutcome::Done)
        } else if eq_bytes(cmd, &word_status_exec()) {
            let rest = join_spaces(&args);
            let message = self.prepare_status_message(&rest);
            assert(message@.len() > 0);
            self.queue_message(message);
            assert(self.queued() =~= old(self).queued() + eff.queued);
            Ok(DebugOutcome::Done)
        } else if eq_bytes(cmd, &word_panic_exec()) {
            let rest = join_spaces(&args);
            assert(old(self).queued() + eff.queued =~= old(self).queued());
            Ok(DebugOutcome::Panic(rest))
        } else if eq_bytes(cmd, &word_chat_exec()) {
            let counter = self.next_chat_type;
            self.next_chat_type = if counter == 0xff {
                0
            } else {
                counter + 1
            };
            let chat_type = match ChatType::try_from_number(counter) {
                Some(ct) => ct,
                None => {
                    assert(old(self).queued() + eff.queued =~= old(self).queued());
                    return Err(DecodeError::InvalidChatQualifier);
                },
            };
            let mut msg: Vec<u8> = Vec::new();
            msg.push(0x63);
            msg.push(0x68);
            msg.push(0x61);
            msg.push(0x74);
            msg.push(0x5f);
            msg.push(0x74);
            msg.push(0x79);
            msg.push(0x70);
            msg.push(0x65);
            msg.push(0x3d);
            msg.push(0x30);
            msg.push(0x78);
            let hx = render_u8_hex2(counter);
            write_bytes(&mut msg, &hx);
            assert(msg@ =~= chat_type_prefix_text() + hex2_bytes(counter));
            let message = self.prepare_chat(
                chat_type,
                &msg,
                Some(&self.player.name),
                Some(self.player.position),
            );
            assert(message@.len() > 0);
            self.queue_message(message);
            assert(self.queued() =~= old(self).queued() + eff.queued);
            Ok(DebugOutcome::Done)
        } else if eq_bytes(cmd, &word_outfit_exec()) {
            if args.len() < 1 {
                return Err(DecodeError::MissingArgument);
            }
            let outfit_number = match parse_u8_dec(&args[0]) {
                Ok(v) => v,
                Err(e) => {
                    return Err(e);
                },
            };
            let outfit = match CharacterOutfit::try_from_number(outfit_number) {
                Some(o) => o,
                None => {
                    return Err(DecodeError::InvalidCharacterOutfit(outfit_number));
                },
            };
            let colors = Outfit::new(0, 0, 0, 0);
            let message = self.prepare_update_outfit(self.player.id, outfit, colors);
            self.queue_message(message);
            assert(self.queued() =~= old(self).queued() + eff.queued);
            Ok(DebugOutcome::Done)
        } else if eq_bytes(cmd, &word_cd_exec()) {
            if args.len() < 1 {
                return Err(DecodeError::MissingArgument);
            }
            let direction_number = match parse_u8_dec(&args[0]) {
                Ok(v) => v,
                Err(e) => {
                    return Err(e);
                },
            };
            let direction = match Direction::try_from_number(direction_number) {
                Some(d) => d,
                None => {
                    return Err(DecodeError::InvalidDirection(direction_number));
                },
            };
            let mut msg = self.prepare_update_object(
                self.player.position,
                ObjectUpdateType::Update,
                1,
            );
            let tail = self.prepare_change_direction(self.player.id, direction);
            write_bytes(&mut msg, &tail);
            self.queue_message(msg);
            assert(self.queued() =~= old(self).queued() + eff.queued);
            Ok(DebugOutcome::Done)
        } else if eq_bytes(cmd, &word_gc_exec()) {
            let rest = join_spaces(&args);
            let message = self.prepare_green_chat(&rest);
            assert(message@.len() > 0);
            self.queue_message(message);
            assert(self.queued() =~= old(self).queued() + eff.queued);
            Ok(DebugOutcome::Done)
        } else if eq_bytes(cmd, &word_u0_exec()) {
            let message = self.prepare_unknown_0x0000();
            assert(message@.len() > 0);
            self.queue_message(message);
            assert(self.queued() =~= old(self).queued() + eff.queued);
            Ok(DebugOutcome::Done)
        } else if eq_bytes(cmd, &word_uf_exec()) {
            let message = self.prepare_unknown_0x000f();
            assert(message@.len() > 0);
            self.queue_message(message);
            assert(self.queued() =~= old(self).queued() + eff.queued);
            Ok(DebugOutcome::Done)
        } else if eq_bytes(cmd, &word_u33_exec()) {
            let message = self.prepare_unknown_0x0033();
            assert(message@.len() > 0);
            self.queue_message(message);
            assert(self.queued() =~= old(self).queued() + eff.queued);
            Ok(DebugOutcome::Done)
        } else if eq_bytes(cmd, &word_u34_exec()) {
            let message = self.prepare_unknown_0x0034();
            assert(message@.len() > 0);
            self.queue_message(message);
            assert(self.queued() =~= old(self).queued() + eff.queued);
            Ok(DebugOutcome::Done)
        } else {
            let message = self.prepare_magic_effect(MagicEffect::Puff, self.player.position);
            assert(message@.len() > 0);
            self.queue_message(message);
            assert(self.queued() =~= old(self).queued() + eff.queued);
            Ok(DebugOutcome::Done)
        }
    }

    /// The chat line the debug text commands answer with.    /// The chat line the debug text commands answer with.
    fn debug_chat(&self, msg: &Vec<u8>) -> (r: Vec<u8>)
        ensures
            r@ == debug_chat_message(self.protocol, self.player, msg@),
    {
        if self.protocol.number() < 501 {
            self.prepare_chat(
                ChatType::Normal,
                msg,
                Some(&self.player.name),
                Some(self.player.position),
            )
        } else {
            self.prepare_chat(
                ChatType::RedConsoleWhiteScreen,
                msg,
                None,
                Some(self.player.position),
            )
        }
    }

    /// Tokenizes a debug command line and runs it; a line with no
    /// command word does nothing.
    pub fn send_debug_command(&mut self, command: &Vec<u8>) -> (r: Result<
        DebugOutcome,
        DecodeError,
    >)
        requires
            old(self).player.outfit.wf(),
        ensures
            final(self).protocol == old(self).protocol,
            final(self).player_id == old(self).player_id,
            final(self).debug_commands_enabled == old(self).debug_commands_enabled,
            final(self).player == old(self).player,
            ({
                let toks = spec_tokenize(command@);
                if toks.len() == 0 {
                    *final(self) == *old(self) && (r matches Ok(DebugOutcome::Done))
                } else {
                    let eff = debug_effect(
                        old(self).protocol,
                        old(self).player,
                        old(self).next_motd_number,
                        old(self).next_chat_type,
                        toks,
                    );
                    &&& final(self).next_motd_number == eff.next_motd_number
                    &&& final(self).next_chat_type == eff.next_chat_type
                    &&& final(self).queued() == old(self).queued() + eff.queued
                    &&& (match r {
                        Ok(DebugOutcome::Done) => eff.result is Done,
                        Ok(DebugOutcome::Panic(text)) => eff.result == DebugResultSpec::Panic(
                            text@,
                        ),
                        Err(e) => eff.result == DebugResultSpec::Failed(e),
                    })
                }
            }),
    {
        let tokens = tokenize(command);
        if tokens.len() == 0 {
            return Ok(DebugOutcome::Done);
        }
        self.debug_command(&tokens)
    }
}

/// The visible-character table, as the character-table command sends it.
fn ascii_table_run_exec() -> (r: Vec<u8>)
    ensures
        r@ == ascii_table_run(),
{
    let mut out: Vec<u8> = Vec::new();
    let mut b: u8 = 0x20;
    while b < 0x80
        invariant
            0x20 <= b <= 0x80,
            out@.len() == b - 0x20,
            forall|i: int| 0 <= i < out@.len() ==> out@[i] == (0x20 + i) as u8,
        decreases 0x80 - b,
    {
        out.push(b);
        b = b + 1;
    }
    assert(out@ =~= ascii_table_run());
    out
}


impl Connection {
    /// Runs a debug command line from chat: a malformed command is
    /// recovered locally with a generic visual placeholder, and only the
    /// deliberate panic command is handed up.
    pub fn receive_debug_command(&mut self, msg: &Vec<u8>) -> (r:
        crate::session::FrameDisposition)
        requires
            old(self).player.outfit.wf(),
        ensures
            final(self).protocol == old(self).protocol,
            final(self).player_id == old(self).player_id,
            final(self).debug_commands_enabled == old(self).debug_commands_enabled,
            final(self).player == old(self).player,
            ({
                let toks = spec_tokenize(msg@);
                if toks.len() == 0 {
                    &&& *final(self) == *old(self)
                    &&& r is Continue
                } else {
                    let eff = debug_effect(
                        old(self).protocol,
                        old(self).player,
                        old(self).next_motd_number,
                        old(self).next_chat_type,
                        toks,
                    );
                    &&& final(self).next_motd_number == eff.next_motd_number
                    &&& final(self).next_chat_type == eff.next_chat_type
                    &&& (match eff.result {
                        DebugResultSpec::Done => final(self).queued() == old(self).queued()
                            + eff.queued && r is Continue,
                        DebugResultSpec::Panic(text) => final(self).queued() == old(self).queued()
                            + eff.queued && (r matches crate::session::FrameDisposition::PanicRequested(t)
                            && t@ == text),
                        DebugResultSpec::Failed(_) => final(self).queued() == (old(self).queued()
                            + eff.queued).push(
                            magic_effect_bytes(
                                old(self).protocol,
                                MagicEffect::Puff,
                                old(self).player.position,
                            ),
                        ) && r is Continue,
                    })
                }
            }),
    {
        match self.send_debug_command(msg) {
            Ok(DebugOutcome::Done) => crate::session::FrameDisposition::Continue,
            Ok(DebugOutcome::Panic(text)) => crate::session::FrameDisposition::PanicRequested(
                text,
            ),
            Err(_e) => {
                let message = self.prepare_magic_effect(MagicEffect::Puff, self.player.position);
                assert(message@.len() > 0);
                self.queue_message(message);
                crate::session::FrameDisposition::Continue
            },
        }
    }
}

} // verus!
