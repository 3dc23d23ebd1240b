//! The per-connection session: the player record, the negotiated
//! protocol version, and the outbound message queue.
//!
//! Handlers are pure with respect to the socket: they read from a
//! received payload behind a cursor and append prepared messages to the
//! outbound queue (or, rarely, mutate the player record).  Flushing the
//! queue produces the exact bytes for one socket write.

use vstd::prelude::*;
use crossbeam_queue::SegQueue;
use crate::batch;
use crate::batch::{flushable, flush_bytes};
use crate::character::{CharacterOutfit, CharacterUpdateType, Direction, Gender, Outfit};
use crate::chat::{spec_translate_char, spec_translate_char_upper, translate, translate_upper, ChatType};
use crate::constants::{MagicEffect, ObjectUpdateType};
use crate::header::{AuxiliaryHeaderSend, HeaderReceive, HeaderSend};
use vstd::std_specs::convert::FromSpec;
use crate::character::HealthStatus;
use crate::map::{TileObject, WorldMap};
use crate::player::{InventorySlot, Player, Skills, Stats};
use crate::character::{FightMode, FightStance};
use crate::position::{Position, PositionQualifier};
use crate::text::{dec_bytes, render_u16_dec};
use crate::world::{PlayerToWorldMessage, WorldToPlayerMessage};
use crate::queue::{new_message_queue, queue_buffers, queue_push};
use crate::wire::{
    le16,
    bytes_until_null, decode_outfit_colors, decode_position, fixed_length_bytes, gender_byte,
    header_bytes, outfit_colors_bytes, position_bytes, position_len, read_outfit_colors, read_position,
    read_string, read_u16_le, read_u32_le, read_u8, repeated_bytes, u16_le, u32_le, write_bytes,
    write_gender, write_header, write_null_terminated_string, write_outfit_colors, write_position,
    write_string_with_fixed_length, write_u16_le, write_u32_le, write_u8, write_zeroes,
    DecodeError,
};
use crate::Protocol;

verus! {

/// One connected client's session state.  The socket itself lives
/// outside; the session only decides what bytes to send.
pub struct Connection {
    pub player: Player,
    pub player_id: u32,
    pub protocol: Protocol,
    pub message_queue: SegQueue<Vec<u8>>,
    pub debug_commands_enabled: bool,
    pub next_motd_number: u16,
    pub next_chat_type: u8,
}

// ---------------------------------------------------------------------
// Outbound message layouts
// ---------------------------------------------------------------------

pub open spec fn info_bytes(p: Protocol, message: Seq<u8>) -> Seq<u8> {
    header_bytes(HeaderSend::Info, p) + message + seq![0u8]
}

pub open spec fn error_bytes(p: Protocol, message: Seq<u8>) -> Seq<u8> {
    header_bytes(HeaderSend::Error, p) + message + seq![0u8]
}

pub open spec fn login_bytes(p: Protocol, player_id: u32) -> Seq<u8> {
    header_bytes(HeaderSend::Login, p) + if p.spec_number() >= 300 {
        u32_le(player_id)
    } else {
        Seq::<u8>::empty()
    }
}

pub open spec fn world_light_bytes(p: Protocol, light_level: u8) -> Seq<u8> {
    header_bytes(HeaderSend::WorldLight, p) + seq![light_level]
}

pub open spec fn update_character_bytes(
    p: Protocol,
    id: u32,
    update_type: CharacterUpdateType,
    value: u8,
) -> Seq<u8> {
    header_bytes(HeaderSend::UpdateCharacter, p) + u32_le(id) + seq![
        update_type.spec_number(),
        value,
    ]
}

/// The oldest revision's character-update feedback is incomplete
/// upstream: state updates server-side but no bytes are sent.
pub open spec fn update_outfit_bytes(
    p: Protocol,
    id: u32,
    outfit: CharacterOutfit,
    outfit_colors: Outfit,
) -> Seq<u8> {
    if p == Protocol::Tibia103 {
        Seq::<u8>::empty()
    } else {
        header_bytes(HeaderSend::UpdateCharacter, p) + u32_le(id) + seq![
            CharacterUpdateType::Outfit.spec_number(),
            outfit.spec_number(),
        ] + outfit_colors_bytes(outfit_colors)
    }
}

pub open spec fn update_object_bytes(
    p: Protocol,
    position: Position,
    update_type: ObjectUpdateType,
    stack_pos: u8,
) -> Seq<u8> {
    if p == Protocol::Tibia103 {
        Seq::<u8>::empty()
    } else {
        header_bytes(HeaderSend::UpdateObject, p) + position_bytes(position, p) + seq![
            update_type.spec_number(),
            stack_pos,
        ] + if update_type == ObjectUpdateType::Remove {
            repeated_bytes(0, 6)
        } else {
            Seq::<u8>::empty()
        }
    }
}

pub open spec fn magic_effect_bytes(p: Protocol, effect: MagicEffect, position: Position) -> Seq<
    u8,
> {
    header_bytes(HeaderSend::MagicEffect, p) + position_bytes(position, p) + seq![
        effect.spec_number(),
    ]
}

pub open spec fn skills_bytes(p: Protocol, skills: Skills) -> Seq<u8> {
    header_bytes(HeaderSend::Skills, p) + if p == Protocol::Tibia400 {
        seq![
            skills.sword,
            skills.club,
            skills.gauche,
            skills.fist,
            skills.missile,
            skills.shield,
            skills.distance,
            skills.fishing,
        ]
    } else {
        seq![
            skills.sword,
            skills.club,
            skills.axe,
            skills.distance,
            skills.shield,
            skills.fist,
            skills.fishing,
        ]
    }
}

pub open spec fn status_message_bytes(p: Protocol, status: Seq<u8>) -> Seq<u8> {
    header_bytes(HeaderSend::StatusMessage, p) + status + seq![0u8]
}

pub open spec fn message_of_the_day_bytes(p: Protocol, message_number: u16, message: Seq<u8>)
    -> Seq<u8> {
    header_bytes(HeaderSend::MessageOfTheDay, p) + (if p.spec_number() > 400 {
        u16_le(message_number) + seq![0x0au8]
    } else {
        Seq::<u8>::empty()
    }) + message + seq![0u8]
}

pub open spec fn equipped_item_bytes(p: Protocol, slot: InventorySlot, item: u16, stack: u8)
    -> Seq<u8> {
    header_bytes(HeaderSend::EquippedItem, p) + if p == Protocol::Tibia103 {
        u16_le(item) + seq![slot.spec_number()]
    } else {
        seq![slot.spec_number()] + u16_le(item) + seq![stack]
    }
}

pub open spec fn stats_bytes(p: Protocol, stats: Stats) -> Seq<u8> {
    header_bytes(HeaderSend::Stats, p) + u16_le(stats.health_points) + u16_le(stats.capacity) + (
    if p.spec_number() >= 400 {
        u32_le(stats.experience_points) + seq![stats.experience_level] + u16_le(stats.mana_points)
            + seq![stats.magic_level] + u16_le(stats.ammunition)
    } else if p.spec_number() >= 300 {
        seq![stats.intelligence, stats.strength, stats.dexterity] + u16_le(
            (stats.experience_points % 0x10000) as u16,
        ) + seq![stats.experience_level]
    } else {
        Seq::<u8>::empty()
    })
}

/// The chat position actually encoded: revision 300 shifts it one tile
/// south-east; an absent position encodes as the origin.
pub open spec fn chat_position(p: Protocol, position: Option<Position>) -> Position {
    let base = match position {
        Some(pos) => if p == Protocol::Tibia300 {
            pos.spec_offset(1i16, 1i16, 0i8)
        } else {
            pos
        },
        None => Position { x: 0, y: 0, z: 0 },
    };
    base
}

pub open spec fn raw_chat_bytes(
    p: Protocol,
    chat_type: ChatType,
    msg: Seq<u8>,
    sender_name: Option<Seq<u8>>,
    position: Option<Position>,
) -> Seq<u8> {
    header_bytes(HeaderSend::Chat, p) + position_bytes(chat_position(p, position), p) + seq![
        chat_type.spec_number(),
    ] + (match sender_name {
        Some(name) => name + seq![0x09u8],
        None => Seq::<u8>::empty(),
    }) + msg + seq![0u8]
}

/// ASCII lower-case letters mapped to upper case; every other byte kept.
pub open spec fn spec_ascii_upper(b: u8) -> u8 {
    if 0x61 <= b <= 0x7a {
        (b - 0x20) as u8
    } else {
        b
    }
}

/// The charset fixup a chat message gets before encoding: yelled text is
/// upper-cased and translated with the upper-case table, everything else
/// is translated plainly.
pub open spec fn chat_translated(chat_type: ChatType, msg: Seq<u8>) -> Seq<u8> {
    if chat_type == ChatType::Yell {
        msg.map_values(|c: u8| spec_ascii_upper(c)).map_values(
            |c: u8| spec_translate_char_upper(c),
        )
    } else {
        msg.map_values(|c: u8| spec_translate_char(c))
    }
}

pub open spec fn chat_bytes(
    p: Protocol,
    chat_type: ChatType,
    msg: Seq<u8>,
    sender_name: Option<Seq<u8>>,
    position: Option<Position>,
) -> Seq<u8> {
    raw_chat_bytes(p, chat_type, chat_translated(chat_type, msg), sender_name, position)
}

/// The fixed "INFO: name=" prefix of a user-info reply.
pub open spec fn user_info_prefix() -> Seq<u8> {
    seq![0x49u8, 0x4eu8, 0x46u8, 0x4fu8, 0x3au8, 0x20u8, 0x6eu8, 0x61u8, 0x6du8, 0x65u8, 0x3du8]
}

pub open spec fn user_info_bytes(p: Protocol, player_name: Seq<u8>) -> Seq<u8> {
    header_bytes(HeaderSend::UserInfo, p) + u16_le(0x1010) + user_info_prefix() + player_name
        + seq![0u8]
}

pub open spec fn user_list_bytes(p: Protocol, player_name: Seq<u8>) -> Seq<u8> {
    header_bytes(HeaderSend::UserList, p) + u16_le(0x1010) + player_name + seq![0x0au8, 0u8]
}

pub open spec fn green_chat_bytes(p: Protocol, msg: Seq<u8>) -> Seq<u8> {
    header_bytes(HeaderSend::GreenChat, p) + msg + seq![0u8]
}

pub open spec fn open_container_bytes(p: Protocol) -> Seq<u8> {
    header_bytes(HeaderSend::OpenContainer, p) + seq![1u8] + u16_le(0x013d) + item_run(5)
        + u16_le(0xffff)
}

pub open spec fn close_container_bytes(p: Protocol, local_id: u8) -> Seq<u8> {
    header_bytes(HeaderSend::CloseContainer, p) + seq![local_id]
}

pub open spec fn change_direction_bytes(p: Protocol, id: u32, direction: Direction) -> Seq<u8> {
    if p == Protocol::Tibia103 {
        Seq::<u8>::empty()
    } else {
        seq![AuxiliaryHeaderSend::ChangeDirection.spec_opcode(), direction.spec_number()]
            + u32_le(id)
    }
}

/// The placeholder profile fields a data-window reply carries.
pub open spec fn password_field() -> Seq<u8> {
    seq![0x70u8, 0x61u8, 0x73u8, 0x73u8, 0x77u8, 0x6fu8, 0x72u8, 0x64u8]
}

pub open spec fn realname_field() -> Seq<u8> {
    seq![0x72u8, 0x65u8, 0x61u8, 0x6cu8, 0x6eu8, 0x61u8, 0x6du8, 0x65u8]
}

pub open spec fn location_field() -> Seq<u8> {
    seq![0x6cu8, 0x6fu8, 0x63u8, 0x61u8, 0x74u8, 0x69u8, 0x6fu8, 0x6eu8]
}

pub open spec fn email_field() -> Seq<u8> {
    seq![0x65u8, 0x6du8, 0x61u8, 0x69u8, 0x6cu8]
}

pub open spec fn comment_field() -> Seq<u8> {
    seq![0x63u8, 0x6fu8, 0x6du8, 0x6du8, 0x65u8, 0x6eu8, 0x74u8]
}

pub open spec fn data_window_bytes(p: Protocol, player: Player) -> Seq<u8> {
    header_bytes(HeaderSend::DataWindow, p) + fixed_length_bytes(player.name@, 30) + (if p.spec_number() <= 501 {
        fixed_length_bytes(password_field(), 30) + seq![gender_byte(player.gender, p)]
            + outfit_colors_bytes(player.outfit) + fixed_length_bytes(realname_field(), 50)
            + fixed_length_bytes(location_field(), 50) + fixed_length_bytes(email_field(), 50) + (
        if p.spec_number() >= 400 {
            fixed_length_bytes(comment_field(), 500)
        } else {
            Seq::<u8>::empty()
        })
    } else {
        seq![gender_byte(player.gender, p)] + outfit_colors_bytes(player.outfit)
    })
}

pub open spec fn header_only_bytes(p: Protocol, h: HeaderSend) -> Seq<u8> {
    header_bytes(h, p)
}

impl Connection {
    /// The outbound queue's buffers, oldest first.
    pub open spec fn queued(self) -> Seq<Seq<u8>> {
        queue_buffers(self.message_queue)
    }

    /// Everything of the session except the outbound queue.
    pub open spec fn same_player_state(self, other: Connection) -> bool {
        &&& self.player.id == other.player.id
        &&& self.player.name@ == other.player.name@
        &&& self.player.position == other.player.position
        &&& self.player.skills == other.player.skills
        &&& self.player.stats == other.player.stats
        &&& self.player.outfit == other.player.outfit
        &&& self.player.gender == other.player.gender
        &&& self.player_id == other.player_id
        &&& self.protocol == other.protocol
        &&& self.debug_commands_enabled == other.debug_commands_enabled
    }

    pub fn new(protocol: Protocol, player: Player, debug_commands_enabled: bool) -> (c: Connection)
        ensures
            c.player == player,
            c.player_id == player.id,
            c.protocol == protocol,
            c.debug_commands_enabled == debug_commands_enabled,
            c.queued() == Seq::<Seq<u8>>::empty(),
    {
        let player_id = player.id;
        Connection {
            player,
            player_id,
            protocol,
            message_queue: new_message_queue(),
            debug_commands_enabled,
            next_motd_number: 0x0102,
            next_chat_type: 0x41,
        }
    }

    /// Appends a prepared message to the outbound queue; an empty
    /// message is dropped rather than queued.
    pub fn queue_message(&mut self, message: Vec<u8>)
        ensures
            final(self).same_player_state(*old(self)),
            final(self).player == old(self).player,
            final(self).next_motd_number == old(self).next_motd_number,
            final(self).next_chat_type == old(self).next_chat_type,
            final(self).queued() == if message@.len() == 0 {
                old(self).queued()
            } else {
                old(self).queued().push(message@)
            },
    {
        if !message.is_empty() {
            queue_push(&mut self.message_queue, message);
        }
    }

    /// Drains the queue into the exact bytes of one socket write, under
    /// the batching policy the protocol version selects.
    pub fn flush_message_queue(&mut self) -> (r: Result<Vec<u8>, DecodeError>)
        ensures
            final(self).same_player_state(*old(self)),
            final(self).player == old(self).player,
            final(self).next_motd_number == old(self).next_motd_number,
            final(self).next_chat_type == old(self).next_chat_type,
            final(self).queued().len() == 0,
            match r {
                Ok(out) => flushable(old(self).queued(), old(self).protocol) && out@
                    == flush_bytes(old(self).queued(), old(self).protocol),
                Err(e) => e == DecodeError::MessageTooLong && !flushable(
                    old(self).queued(),
                    old(self).protocol,
                ),
            },
    {
        batch::flush_message_queue(&mut self.message_queue, self.protocol)
    }

    pub fn prepare_info(&self, message: &Vec<u8>) -> (r: Vec<u8>)
        ensures
            r@ == info_bytes(self.protocol, message@),
    {
        let mut buf: Vec<u8> = Vec::new();
        write_header(&mut buf, HeaderSend::Info, self.protocol);
        write_null_terminated_string(&mut buf, message);
        assert(buf@ =~= info_bytes(self.protocol, message@));
        buf
    }

    pub fn prepare_error(&self, message: &Vec<u8>) -> (r: Vec<u8>)
        ensures
            r@ == error_bytes(self.protocol, message@),
    {
        let mut buf: Vec<u8> = Vec::new();
        write_header(&mut buf, HeaderSend::Error, self.protocol);
        write_null_terminated_string(&mut buf, message);
        assert(buf@ =~= error_bytes(self.protocol, message@));
        buf
    }

    pub fn prepare_login(&self) -> (r: Vec<u8>)
        ensures
            r@ == login_bytes(self.protocol, self.player.id),
    {
        let mut buf: Vec<u8> = Vec::new();
        write_header(&mut buf, HeaderSend::Login, self.protocol);
        if self.protocol.number() >= 300 {
            write_u32_le(&mut buf, self.player.id);
        }
        assert(buf@ =~= login_bytes(self.protocol, self.player.id));
        buf
    }

    pub fn prepare_world_light(&self, light_level: u8) -> (r: Vec<u8>)
        ensures
            r@ == world_light_bytes(self.protocol, light_level),
    {
        let mut buf: Vec<u8> = Vec::new();
        write_header(&mut buf, HeaderSend::WorldLight, self.protocol);
        write_u8(&mut buf, light_level);
        assert(buf@ =~= world_light_bytes(self.protocol, light_level));
        buf
    }

    pub fn prepare_update_character(
        &self,
        id: u32,
        update_type: CharacterUpdateType,
        value: u8,
    ) -> (r: Vec<u8>)
        ensures
            r@ == update_character_bytes(self.protocol, id, update_type, value),
    {
        let mut buf: Vec<u8> = Vec::new();
        write_header(&mut buf, HeaderSend::UpdateCharacter, self.protocol);
        write_u32_le(&mut buf, id);
        write_u8(&mut buf, update_type.number());
        write_u8(&mut buf, value);
        assert(buf@ =~= update_character_bytes(self.protocol, id, update_type, value));
        buf
    }

    pub fn prepare_update_outfit(
        &self,
        id: u32,
        outfit: CharacterOutfit,
        outfit_colors: Outfit,
    ) -> (r: Vec<u8>)
        requires
            outfit_colors.wf(),
        ensures
            r@ == update_outfit_bytes(self.protocol, id, outfit, outfit_colors),
    {
        let mut buf: Vec<u8> = Vec::new();
        if self.protocol == Protocol::Tibia103 {
        } else {
            write_header(&mut buf, HeaderSend::UpdateCharacter, self.protocol);
            write_u32_le(&mut buf, id);
            write_u8(&mut buf, CharacterUpdateType::Outfit.number());
            write_u8(&mut buf, outfit.number());
            write_outfit_colors(&mut buf, outfit_colors);
        }
        assert(buf@ =~= update_outfit_bytes(self.protocol, id, outfit, outfit_colors));
        buf
    }

    pub fn prepare_update_object(
        &self,
        position: Position,
        update_type: ObjectUpdateType,
        stack_pos: u8,
    ) -> (r: Vec<u8>)
        ensures
            r@ == update_object_bytes(self.protocol, position, update_type, stack_pos),
    {
        let mut buf: Vec<u8> = Vec::new();
        if self.protocol == Protocol::Tibia103 {
        } else {
            write_header(&mut buf, HeaderSend::UpdateObject, self.protocol);
            write_position(&mut buf, position, self.protocol);
            write_u8(&mut buf, update_type.number());
            write_u8(&mut buf, stack_pos);
            if update_type == ObjectUpdateType::Remove {
                write_zeroes(&mut buf, 6);
            }
        }
        assert(buf@ =~= update_object_bytes(self.protocol, position, update_type, stack_pos));
        buf
    }

    pub fn prepare_magic_effect(&self, effect: MagicEffect, position: Position) -> (r: Vec<u8>)
        ensures
            r@ == magic_effect_bytes(self.protocol, effect, position),
    {
        let mut buf: Vec<u8> = Vec::new();
        write_header(&mut buf, HeaderSend::MagicEffect, self.protocol);
        write_position(&mut buf, position, self.protocol);
        write_u8(&mut buf, effect.number());
        assert(buf@ =~= magic_effect_bytes(self.protocol, effect, position));
        buf
    }

    pub fn prepare_skills(&self) -> (r: Vec<u8>)
        ensures
            r@ == skills_bytes(self.protocol, self.player.skills),
    {
        let skills = self.player.skills;
        let mut buf: Vec<u8> = Vec::new();
        write_header(&mut buf, HeaderSend::Skills, self.protocol);
        if self.protocol == Protocol::Tibia400 {
            write_u8(&mut buf, skills.sword);
            write_u8(&mut buf, skills.club);
            write_u8(&mut buf, skills.gauche);
            write_u8(&mut buf, skills.fist);
            write_u8(&mut buf, skills.missile);
            write_u8(&mut buf, skills.shield);
            write_u8(&mut buf, skills.distance);
            write_u8(&mut buf, skills.fishing);
        } else {
            write_u8(&mut buf, skills.sword);
            write_u8(&mut buf, skills.club);
            write_u8(&mut buf, skills.axe);
            write_u8(&mut buf, skills.distance);
            write_u8(&mut buf, skills.shield);
            write_u8(&mut buf, skills.fist);
            write_u8(&mut buf, skills.fishing);
        }
        assert(buf@ =~= skills_bytes(self.protocol, skills));
        buf
    }

    pub fn prepare_status_message(&self, status: &Vec<u8>) -> (r: Vec<u8>)
        ensures
            r@ == status_message_bytes(self.protocol, status@),
    {
        let mut buf: Vec<u8> = Vec::new();
        write_header(&mut buf, HeaderSend::StatusMessage, self.protocol);
        write_null_terminated_string(&mut buf, status);
        assert(buf@ =~= status_message_bytes(self.protocol, status@));
        buf
    }

    pub fn prepare_message_of_the_day(&self, message_number: u16, message: &Vec<u8>) -> (r: Vec<
        u8,
    >)
        ensures
            r@ == message_of_the_day_bytes(self.protocol, message_number, message@),
    {
        let mut buf: Vec<u8> = Vec::new();
        write_header(&mut buf, HeaderSend::MessageOfTheDay, self.protocol);
        if self.protocol.number() > 400 {
            write_u16_le(&mut buf, message_number);
            write_u8(&mut buf, 0x0a);
        }
        write_null_terminated_string(&mut buf, message);
        assert(buf@ =~= message_of_the_day_bytes(self.protocol, message_number, message@));
        buf
    }

    pub fn prepare_equipped_item(&self, slot: InventorySlot, item: u16, stack: u8) -> (r: Vec<u8>)
        ensures
            r@ == equipped_item_bytes(self.protocol, slot, item, stack),
    {
        let mut buf: Vec<u8> = Vec::new();
        write_header(&mut buf, HeaderSend::EquippedItem, self.protocol);
        if self.protocol == Protocol::Tibia103 {
            write_u16_le(&mut buf, item);
            write_u8(&mut buf, slot.number());
        } else {
            write_u8(&mut buf, slot.number());
            write_u16_le(&mut buf, item);
            write_u8(&mut buf, stack);
        }
        assert(buf@ =~= equipped_item_bytes(self.protocol, slot, item, stack));
        buf
    }

    pub fn prepare_stats(&self) -> (r: Vec<u8>)
        ensures
            r@ == stats_bytes(self.protocol, self.player.stats),
    {
        let stats = self.player.stats;
        let mut buf: Vec<u8> = Vec::new();
        write_header(&mut buf, HeaderSend::Stats, self.protocol);
        write_u16_le(&mut buf, stats.health_points);
        write_u16_le(&mut buf, stats.capacity);
        if self.protocol.number() >= 400 {
            write_u32_le(&mut buf, stats.experience_points);
            write_u8(&mut buf, stats.experience_level);
            write_u16_le(&mut buf, stats.mana_points);
            write_u8(&mut buf, stats.magic_level);
            write_u16_le(&mut buf, stats.ammunition);
        } else if self.protocol.number() >= 300 {
            write_u8(&mut buf, stats.intelligence);
            write_u8(&mut buf, stats.strength);
            write_u8(&mut buf, stats.dexterity);
            write_u16_le(&mut buf, (stats.experience_points % 0x10000) as u16);
            write_u8(&mut buf, stats.experience_level);
        }
        assert(buf@ =~= stats_bytes(self.protocol, stats));
        buf
    }

    pub fn prepare_raw_chat(
        &self,
        chat_type: ChatType,
        msg: &Vec<u8>,
        sender_name: Option<&Vec<u8>>,
        position: Option<Position>,
    ) -> (r: Vec<u8>)
        ensures
            r@ == raw_chat_bytes(
                self.protocol,
                chat_type,
                msg@,
                match sender_name {
                    Some(name) => Some(name@),
                    None => None,
                },
                position,
            ),
    {
        let mut buf: Vec<u8> = Vec::new();
        let send_position = match position {
            Some(pos) => {
                if self.protocol == Protocol::Tibia300 {
                    Some(pos.offset(1, 1, 0))
                } else {
                    Some(pos)
                }
            },
            None => None,
        };
        write_header(&mut buf, HeaderSend::Chat, self.protocol);
        write_position(
            &mut buf,
            match send_position {
                Some(pos) => pos,
                None => Position::new(0, 0, 0),
            },
            self.protocol,
        );
        write_u8(&mut buf, chat_type.number());
        match sender_name {
            Some(name) => {
                write_bytes(&mut buf, name);
                write_u8(&mut buf, 0x09);
            },
            None => {},
        }
        write_bytes(&mut buf, msg);
        write_u8(&mut buf, 0x00);
        assert(buf@ =~= raw_chat_bytes(
            self.protocol,
            chat_type,
            msg@,
            match sender_name {
                Some(name) => Some(name@),
                None => None,
            },
            position,
        ));
        buf
    }

    pub fn prepare_chat(
        &self,
        chat_type: ChatType,
        msg: &Vec<u8>,
        sender_name: Option<&Vec<u8>>,
        position: Option<Position>,
    ) -> (r: Vec<u8>)
        ensures
            r@ == chat_bytes(
                self.protocol,
                chat_type,
                msg@,
                match sender_name {
                    Some(name) => Some(name@),
                    None => None,
                },
                position,
            ),
    {
        let translated = match chat_type {
            ChatType::Yell => {
                let mut upper: Vec<u8> = Vec::new();
                let mut i: usize = 0;
                while i < msg.len()
                    invariant
                        i <= msg@.len(),
                        upper@ == msg@.take(i as int).map_values(|c: u8| spec_ascii_upper(c)),
                    decreases msg@.len() - i,
                {
                    let b = msg[i];
                    if 0x61 <= b && b <= 0x7a {
                        upper.push(b - 0x20);
                    } else {
                        upper.push(b);
                    }
                    assert(upper@ =~= msg@.take(i + 1).map_values(|c: u8| spec_ascii_upper(c)));
                    i = i + 1;
                }
                assert(upper@ =~= msg@.map_values(|c: u8| spec_ascii_upper(c)));
                translate_upper(&upper)
            },
            _ => translate(msg),
        };
        self.prepare_raw_chat(chat_type, &translated, sender_name, position)
    }

    pub fn prepare_user_info(&self, player_name: &Vec<u8>) -> (r: Vec<u8>)
        ensures
            r@ == user_info_bytes(self.protocol, player_name@),
    {
        let mut buf: Vec<u8> = Vec::new();
        write_header(&mut buf, HeaderSend::UserInfo, self.protocol);
        write_u16_le(&mut buf, 0x1010);
        let mut info: Vec<u8> = Vec::new();
        info.push(0x49);
        info.push(0x4e);
        info.push(0x46);
        info.push(0x4f);
        info.push(0x3a);
        info.push(0x20);
        info.push(0x6e);
        info.push(0x61);
        info.push(0x6d);
        info.push(0x65);
        info.push(0x3d);
        assert(info@ =~= user_info_prefix());
        write_bytes(&mut info, player_name);
        write_null_terminated_string(&mut buf, &info);
        assert(buf@ =~= user_info_bytes(self.protocol, player_name@));
        buf
    }

    pub fn prepare_user_list(&self) -> (r: Vec<u8>)
        ensures
            r@ == user_list_bytes(self.protocol, self.player.name@),
    {
        let mut buf: Vec<u8> = Vec::new();
        write_header(&mut buf, HeaderSend::UserList, self.protocol);
        write_u16_le(&mut buf, 0x1010);
        write_bytes(&mut buf, &self.player.name);
        write_u8(&mut buf, 0x0a);
        write_u8(&mut buf, 0);
        assert(buf@ =~= user_list_bytes(self.protocol, self.player.name@));
        buf
    }

    #[verifier::rlimit(30)]
    #[verifier::spinoff_prover]
    pub fn prepare_data_window(&self) -> (r: Vec<u8>)
        requires
            self.player.outfit.wf(),
        ensures
            r@ == data_window_bytes(self.protocol, self.player),
    {
        let mut buf: Vec<u8> = Vec::new();
        write_header(&mut buf, HeaderSend::DataWindow, self.protocol);
        write_string_with_fixed_length(&mut buf, &self.player.name, 30);
        if self.protocol.number() <= 501 {
            let mut password: Vec<u8> = Vec::new();
            password.push(0x70);
            password.push(0x61);
            password.push(0x73);
            password.push(0x73);
            password.push(0x77);
            password.push(0x6f);
            password.push(0x72);
            password.push(0x64);
            assert(password@ =~= password_field());
            write_string_with_fixed_length(&mut buf, &password, 30);
            write_gender(&mut buf, self.player.gender, self.protocol);
            write_outfit_colors(&mut buf, self.player.outfit);
            let mut realname: Vec<u8> = Vec::new();
            realname.push(0x72);
            realname.push(0x65);
            realname.push(0x61);
            realname.push(0x6c);
            realname.push(0x6e);
            realname.push(0x61);
            realname.push(0x6d);
            realname.push(0x65);
            assert(realname@ =~= realname_field());
            write_string_with_fixed_length(&mut buf, &realname, 50);
            let mut location: Vec<u8> = Vec::new();
            location.push(0x6c);
            location.push(0x6f);
            location.push(0x63);
            location.push(0x61);
            location.push(0x74);
            location.push(0x69);
            location.push(0x6f);
            location.push(0x6e);
            assert(location@ =~= location_field());
            write_string_with_fixed_length(&mut buf, &location, 50);
            let mut email: Vec<u8> = Vec::new();
            email.push(0x65);
            email.push(0x6d);
            email.push(0x61);
            email.push(0x69);
            email.push(0x6c);
            assert(email@ =~= email_field());
            write_string_with_fixed_length(&mut buf, &email, 50);
            if self.protocol.number() >= 400 {
                let mut comment: Vec<u8> = Vec::new();
                comment.push(0x63);
                comment.push(0x6f);
                comment.push(0x6d);
                comment.push(0x6d);
                comment.push(0x65);
                comment.push(0x6e);
                comment.push(0x74);
                assert(comment@ =~= comment_field());
                write_string_with_fixed_length(&mut buf, &comment, 500);
            }
        } else {
            write_gender(&mut buf, self.player.gender, self.protocol);
            write_outfit_colors(&mut buf, self.player.outfit);
        }
        assert(buf@ =~= data_window_bytes(self.protocol, self.player));
        buf
    }

    pub fn prepare_open_container(&self) -> (r: Vec<u8>)
        ensures
            r@ == open_container_bytes(self.protocol),
    {
        let mut buf: Vec<u8> = Vec::new();
        write_header(&mut buf, HeaderSend::OpenContainer, self.protocol);
        write_u8(&mut buf, 1);
        write_u16_le(&mut buf, 0x013d);
        assert(buf@ =~= header_bytes(HeaderSend::OpenContainer, self.protocol) + seq![1u8]
            + u16_le(0x013d) + item_run(0));
        let mut i: u8 = 0;
        while i < 5
            invariant
                i <= 5,
                buf@ == header_bytes(HeaderSend::OpenContainer, self.protocol) + seq![1u8]
                    + u16_le(0x013d) + item_run(i as int),
            decreases 5 - i,
        {
            write_u16_le(&mut buf, 0x005a);
            assert(buf@ =~= header_bytes(HeaderSend::OpenContainer, self.protocol) + seq![1u8]
                + u16_le(0x013d) + item_run(i + 1));
            i = i + 1;
        }
        write_u16_le(&mut buf, 0xffff);
        assert(buf@ =~= open_container_bytes(self.protocol));
        buf
    }

    pub fn prepare_close_container(&self, local_id: u8) -> (r: Vec<u8>)
        ensures
            r@ == close_container_bytes(self.protocol, local_id),
    {
        let mut buf: Vec<u8> = Vec::new();
        write_header(&mut buf, HeaderSend::CloseContainer, self.protocol);
        write_u8(&mut buf, local_id);
        assert(buf@ =~= close_container_bytes(self.protocol, local_id));
        buf
    }

    pub fn prepare_change_direction(&self, id: u32, direction: Direction) -> (r: Vec<u8>)
        ensures
            r@ == change_direction_bytes(self.protocol, id, direction),
    {
        let mut buf: Vec<u8> = Vec::new();
        if self.protocol == Protocol::Tibia103 {
        } else {
            write_u8(&mut buf, AuxiliaryHeaderSend::ChangeDirection.opcode());
            write_u8(&mut buf, direction.number());
            write_u32_le(&mut buf, id);
        }
        assert(buf@ =~= change_direction_bytes(self.protocol, id, direction));
        buf
    }

    pub fn prepare_green_chat(&self, msg: &Vec<u8>) -> (r: Vec<u8>)
        ensures
            r@ == green_chat_bytes(self.protocol, msg@),
    {
        let mut buf: Vec<u8> = Vec::new();
        write_header(&mut buf, HeaderSend::GreenChat, self.protocol);
        write_null_terminated_string(&mut buf, msg);
        assert(buf@ =~= green_chat_bytes(self.protocol, msg@));
        buf
    }

    pub fn prepare_unknown_0x0000(&self) -> (r: Vec<u8>)
        ensures
            r@ == header_only_bytes(self.protocol, HeaderSend::Unknown0x0000),
    {
        let mut buf: Vec<u8> = Vec::new();
        write_header(&mut buf, HeaderSend::Unknown0x0000, self.protocol);
        buf
    }

    pub fn prepare_unknown_0x000f(&self) -> (r: Vec<u8>)
        ensures
            r@ == header_only_bytes(self.protocol, HeaderSend::Unknown0x000f),
    {
        let mut buf: Vec<u8> = Vec::new();
        write_header(&mut buf, HeaderSend::Unknown0x000f, self.protocol);
        buf
    }

    pub fn prepare_unknown_0x0033(&self) -> (r: Vec<u8>)
        ensures
            r@ == header_only_bytes(self.protocol, HeaderSend::Unknown0x0033),
    {
        let mut buf: Vec<u8> = Vec::new();
        write_header(&mut buf, HeaderSend::Unknown0x0033, self.protocol);
        buf
    }

    pub fn prepare_unknown_0x0034(&self) -> (r: Vec<u8>)
        ensures
            r@ == header_only_bytes(self.protocol, HeaderSend::Unknown0x0034),
    {
        let mut buf: Vec<u8> = Vec::new();
        write_header(&mut buf, HeaderSend::Unknown0x0034, self.protocol);
        buf
    }
}

/// `n` hard-coded container items, as placed in an open-container reply.
pub open spec fn item_run(n: int) -> Seq<u8>
    decreases n,
{
    if n <= 0 {
        Seq::<u8>::empty()
    } else {
        item_run(n - 1) + u16_le(0x005a)
    }
}

// ---------------------------------------------------------------------
// Characters, tiles and map areas
// ---------------------------------------------------------------------

/// One character entry inside a map or move message.
pub open spec fn character_bytes(
    id: u32,
    name: Seq<u8>,
    outfit_type: CharacterOutfit,
    colors: Outfit,
) -> Seq<u8> {
    seq![AuxiliaryHeaderSend::Character.spec_opcode()] + u32_le(0) + u32_le(id)
        + fixed_length_bytes(name, 30) + seq![
        HealthStatus::Healthy.spec_number(),
        Direction::South.spec_number(),
    ] + seq![outfit_type.spec_number()] + outfit_colors_bytes(colors) + seq![0u8]
}

/// The session's own character, as placed on its tile: the oldest
/// revision carries only the outfit colors behind the character marker.
pub open spec fn player_character_bytes(p: Protocol, player: Player) -> Seq<u8> {
    if p == Protocol::Tibia103 {
        seq![AuxiliaryHeaderSend::Character.spec_opcode()] + outfit_colors_bytes(player.outfit)
    } else {
        character_bytes(player.id, player.name@, CharacterOutfit::Human, player.outfit)
    }
}

/// One tile object's encoding; the qualifier byte (fluid, light level,
/// count) exists only from revision 300 on.
pub open spec fn tile_object_bytes(p: Protocol, obj: TileObject) -> Seq<u8> {
    match obj {
        TileObject::Other(tile_id) => u16_le(tile_id),
        TileObject::FluidContainer(tile_id, fluid) => u16_le(tile_id) + if p.spec_number()
            >= 300 {
            seq![fluid.spec_number()]
        } else {
            Seq::<u8>::empty()
        },
        TileObject::LightSource(tile_id, light_level) => u16_le(tile_id) + if p.spec_number()
            >= 300 {
            seq![light_level]
        } else {
            Seq::<u8>::empty()
        },
        TileObject::Stackable(tile_id, count) => u16_le(tile_id) + if p.spec_number() >= 300 {
            seq![count]
        } else {
            Seq::<u8>::empty()
        },
    }
}

pub open spec fn tile_objects_bytes(p: Protocol, objs: Seq<TileObject>) -> Seq<u8>
    decreases objs.len(),
{
    if objs.len() == 0 {
        Seq::<u8>::empty()
    } else {
        tile_object_bytes(p, objs[0]) + tile_objects_bytes(p, objs.skip(1))
    }
}

proof fn lemma_tile_objects_push(p: Protocol, objs: Seq<TileObject>, obj: TileObject)
    ensures
        tile_objects_bytes(p, objs.push(obj)) == tile_objects_bytes(p, objs) + tile_object_bytes(
            p,
            obj,
        ),
    decreases objs.len(),
{
    let q = objs.push(obj);
    if objs.len() == 0 {
        assert(q[0] == obj);
        assert(q.skip(1) =~= Seq::<TileObject>::empty());
        assert(tile_objects_bytes(p, q) == tile_object_bytes(p, obj) + tile_objects_bytes(
            p,
            Seq::<TileObject>::empty(),
        ));
        assert(tile_object_bytes(p, obj) + Seq::<u8>::empty() =~= tile_objects_bytes(p, objs)
            + tile_object_bytes(p, obj));
    } else {
        assert(q[0] == objs[0]);
        assert(q.skip(1) =~= objs.skip(1).push(obj));
        lemma_tile_objects_push(p, objs.skip(1), obj);
        assert(tile_objects_bytes(p, q) == tile_object_bytes(p, objs[0]) + (tile_objects_bytes(
            p,
            objs.skip(1),
        ) + tile_object_bytes(p, obj)));
        assert(tile_object_bytes(p, objs[0]) + (tile_objects_bytes(p, objs.skip(1))
            + tile_object_bytes(p, obj)) =~= tile_objects_bytes(p, objs) + tile_object_bytes(
            p,
            obj,
        ));
    }
}

/// One tile's encoding: its objects, the session's character if it
/// stands there, and the tile terminator (doubled under the oldest
/// revision).
pub open spec fn tile_bytes(p: Protocol, map: WorldMap, player: Player, position: Position) -> Seq<
    u8,
> {
    (match map.spec_get_tile_objects(position) {
        Some(objs) => tile_objects_bytes(p, objs),
        None => Seq::<u8>::empty(),
    }) + (if position == player.position {
        player_character_bytes(p, player)
    } else {
        Seq::<u8>::empty()
    }) + (if p == Protocol::Tibia103 {
        seq![0xffu8]
    } else {
        Seq::<u8>::empty()
    }) + seq![0xffu8]
}

/// The tile visited at column x, row y of a layer scan.
pub open spec fn layer_tile_position(corner: Position, x: u16, y: u16, zz: u8) -> Position {
    corner.spec_offset(x as i16, y as i16, zz as i8)
}

/// The tiles of column x from row y on.
pub open spec fn column_bytes_from(
    p: Protocol,
    map: WorldMap,
    player: Player,
    corner: Position,
    zz: u8,
    x: u16,
    y: int,
    height: int,
) -> Seq<u8>
    decreases height - y,
{
    if y < 0 || y >= height || height > 0xffff {
        Seq::<u8>::empty()
    } else {
        tile_bytes(p, map, player, layer_tile_position(corner, x, y as u16, zz))
            + column_bytes_from(p, map, player, corner, zz, x, y + 1, height)
    }
}

/// The columns of a layer from column x on.
pub open spec fn rows_bytes_from(
    p: Protocol,
    map: WorldMap,
    player: Player,
    corner: Position,
    zz: u8,
    x: int,
    width: int,
    height: int,
) -> Seq<u8>
    decreases width - x,
{
    if x < 0 || x >= width || width > 0xffff {
        Seq::<u8>::empty()
    } else {
        column_bytes_from(p, map, player, corner, zz, x as u16, 0, height) + rows_bytes_from(
            p,
            map,
            player,
            corner,
            zz,
            x + 1,
            width,
            height,
        )
    }
}

/// One layer of a map area, scanned column by column.
pub open spec fn layer_bytes(
    p: Protocol,
    map: WorldMap,
    player: Player,
    corner: Position,
    zz: u8,
    width: int,
    height: int,
) -> Seq<u8> {
    rows_bytes_from(p, map, player, corner, zz, 0, width, height)
}

/// The layers of a map area from layer z on.
pub open spec fn layers_bytes_from(
    p: Protocol,
    map: WorldMap,
    player: Player,
    corner: Position,
    width: int,
    height: int,
    z: int,
    layers: int,
) -> Seq<u8>
    decreases layers - z,
{
    if z < 0 || z >= layers || layers > 0xff {
        Seq::<u8>::empty()
    } else {
        layer_bytes(p, map, player, corner, z as u8, width, height) + layers_bytes_from(
            p,
            map,
            player,
            corner,
            width,
            height,
            z + 1,
            layers,
        )
    }
}

/// The rectangular corner a map area is scanned from.
pub open spec fn map_corner(position: Position, width: int, height: int) -> Position {
    position.spec_offset(
        (0 - (width - 1) / 2) as i16,
        (0 - (height - 1) / 2) as i16,
        0i8,
    )
}

/// A map area's tile data: every layer concatenated, with the final tile
/// terminator replaced by the end-of-area marker.
pub open spec fn map_chunk_bytes(
    p: Protocol,
    map: WorldMap,
    player: Player,
    position: Position,
    width: int,
    height: int,
    layers: int,
) -> Seq<u8> {
    let corner = map_corner(position, width, height);
    let chunk = layers_bytes_from(p, map, player, corner, width, height, 0, layers);
    chunk.take(chunk.len() - 1) + seq![0xfeu8, 0x00u8]
}

/// A full map message around a position.
pub open spec fn map_area_bytes(
    p: Protocol,
    map: WorldMap,
    player: Player,
    position: Position,
    width: int,
    height: int,
    layers: int,
) -> Seq<u8> {
    header_bytes(HeaderSend::MapArea, p) + position_bytes(player.position, p) + map_chunk_bytes(
        p,
        map,
        player,
        position,
        width,
        height,
        layers,
    )
}

proof fn lemma_chunk_nonempty(
    p: Protocol,
    map: WorldMap,
    player: Player,
    corner: Position,
    width: int,
    height: int,
    layers: int,
)
    requires
        1 <= width <= 0xffff,
        1 <= height <= 0xffff,
        1 <= layers <= 0xff,
    ensures
        layers_bytes_from(p, map, player, corner, width, height, 0, layers).len() >= 1,
{
    assert(layers_bytes_from(p, map, player, corner, width, height, 0, layers) == layer_bytes(
        p,
        map,
        player,
        corner,
        0,
        width,
        height,
    ) + layers_bytes_from(p, map, player, corner, width, height, 1, layers));
    assert(rows_bytes_from(p, map, player, corner, 0, 0, width, height) == column_bytes_from(
        p,
        map,
        player,
        corner,
        0,
        0,
        0,
        height,
    ) + rows_bytes_from(p, map, player, corner, 0, 1, width, height));
    assert(column_bytes_from(p, map, player, corner, 0, 0, 0, height) == tile_bytes(
        p,
        map,
        player,
        layer_tile_position(corner, 0, 0, 0),
    ) + column_bytes_from(p, map, player, corner, 0, 0, 1, height));
    assert(tile_bytes(p, map, player, layer_tile_position(corner, 0, 0, 0)).len() >= 1);
}

impl Connection {
    fn prepare_character(
        &self,
        id: u32,
        name: &Vec<u8>,
        outfit_type: CharacterOutfit,
        colors: Outfit,
    ) -> (r: Vec<u8>)
        requires
            colors.wf(),
        ensures
            r@ == character_bytes(id, name@, outfit_type, colors),
    {
        let mut buf: Vec<u8> = Vec::new();
        write_u8(&mut buf, AuxiliaryHeaderSend::Character.opcode());
        write_u32_le(&mut buf, 0);
        write_u32_le(&mut buf, id);
        write_string_with_fixed_length(&mut buf, name, 30);
        write_u8(&mut buf, HealthStatus::Healthy.number());
        write_u8(&mut buf, Direction::South.number());
        write_u8(&mut buf, outfit_type.number());
        write_outfit_colors(&mut buf, colors);
        write_u8(&mut buf, 0);
        assert(buf@ =~= character_bytes(id, name@, outfit_type, colors));
        buf
    }

    fn prepare_player_character(&self) -> (r: Vec<u8>)
        requires
            self.player.outfit.wf(),
        ensures
            r@ == player_character_bytes(self.protocol, self.player),
    {
        if self.protocol == Protocol::Tibia103 {
            let mut buf: Vec<u8> = Vec::new();
            write_u8(&mut buf, AuxiliaryHeaderSend::Character.opcode());
            write_outfit_colors(&mut buf, self.player.outfit);
            assert(buf@ =~= player_character_bytes(self.protocol, self.player));
            buf
        } else {
            self.prepare_character(
                self.player.id,
                &self.player.name,
                CharacterOutfit::Human,
                self.player.outfit,
            )
        }
    }

    fn prepare_tile(&self, map: &WorldMap, position: Position) -> (r: Vec<u8>)
        requires
            map.wf(),
            self.player.outfit.wf(),
        ensures
            r@ == tile_bytes(self.protocol, *map, self.player, position),
    {
        let mut buf: Vec<u8> = Vec::new();
        match map.get_tile_objects(position) {
            Some(objects) => {
                let mut i: usize = 0;
                while i < objects.len()
                    invariant
                        i <= objects@.len(),
                        buf@ == tile_objects_bytes(self.protocol, objects@.take(i as int)),
                    decreases objects@.len() - i,
                {
                    match objects[i] {
                        TileObject::Other(tile_id) => {
                            write_u16_le(&mut buf, tile_id);
                        },
                        TileObject::FluidContainer(tile_id, fluid) => {
                            write_u16_le(&mut buf, tile_id);
                            if self.protocol.number() >= 300 {
                                write_u8(&mut buf, fluid.number());
                            }
                        },
                        TileObject::LightSource(tile_id, light_level) => {
                            write_u16_le(&mut buf, tile_id);
                            if self.protocol.number() >= 300 {
                                write_u8(&mut buf, light_level);
                            }
                        },
                        TileObject::Stackable(tile_id, count) => {
                            write_u16_le(&mut buf, tile_id);
                            if self.protocol.number() >= 300 {
                                write_u8(&mut buf, count);
                            }
                        },
                    }
                    proof {
                        assert(objects@.take(i + 1) =~= objects@.take(i as int).push(
                            objects@[i as int],
                        ));
                        lemma_tile_objects_push(
                            self.protocol,
                            objects@.take(i as int),
                            objects@[i as int],
                        );
                        assert(buf@ =~= tile_objects_bytes(self.protocol, objects@.take(i + 1)));
                    }
                    i = i + 1;
                }
                assert(objects@.take(objects@.len() as int) =~= objects@);
            },
            None => {},
        }
        if position == self.player.position {
            let character = self.prepare_player_character();
            write_bytes(&mut buf, &character);
        }
        if self.protocol == Protocol::Tibia103 {
            write_u8(&mut buf, 0xff);
        }
        write_u8(&mut buf, 0xff);
        assert(buf@ =~= tile_bytes(self.protocol, *map, self.player, position));
        buf
    }

    fn prepare_layer(
        &self,
        map: &WorldMap,
        position: Position,
        corner: Position,
        width: u16,
        height: u16,
    ) -> (r: Vec<u8>)
        requires
            map.wf(),
            self.player.outfit.wf(),
        ensures
            r@ == layer_bytes(
                self.protocol,
                *map,
                self.player,
                corner,
                position.z,
                width as int,
                height as int,
            ),
    {
        let ghost whole = layer_bytes(
            self.protocol,
            *map,
            self.player,
            corner,
            position.z,
            width as int,
            height as int,
        );
        let mut buf: Vec<u8> = Vec::new();
        let mut x: u16 = 0;
        while x < width
            invariant
                x <= width,
                map.wf(),
                self.player.outfit.wf(),
                whole == layer_bytes(
                    self.protocol,
                    *map,
                    self.player,
                    corner,
                    position.z,
                    width as int,
                    height as int,
                ),
                buf@ + rows_bytes_from(
                    self.protocol,
                    *map,
                    self.player,
                    corner,
                    position.z,
                    x as int,
                    width as int,
                    height as int,
                ) == whole,
            decreases width - x,
        {
            let mut y: u16 = 0;
            while y < height
                invariant
                    y <= height,
                    x < width,
                    map.wf(),
                    self.player.outfit.wf(),
                    whole == layer_bytes(
                        self.protocol,
                        *map,
                        self.player,
                        corner,
                        position.z,
                        width as int,
                        height as int,
                    ),
                    buf@ + column_bytes_from(
                        self.protocol,
                        *map,
                        self.player,
                        corner,
                        position.z,
                        x,
                        y as int,
                        height as int,
                    ) + rows_bytes_from(
                        self.protocol,
                        *map,
                        self.player,
                        corner,
                        position.z,
                        x as int + 1,
                        width as int,
                        height as int,
                    ) == whole,
                decreases height - y,
            {
                let tile_position = corner.offset(x as i16, y as i16, position.z as i8);
                let tile = self.prepare_tile(map, tile_position);
                let ghost prev = buf@;
                write_bytes(&mut buf, &tile);
                proof {
                    assert(tile_position == layer_tile_position(corner, x, y, position.z));
                    assert(column_bytes_from(
                        self.protocol,
                        *map,
                        self.player,
                        corner,
                        position.z,
                        x,
                        y as int,
                        height as int,
                    ) == tile@ + column_bytes_from(
                        self.protocol,
                        *map,
                        self.player,
                        corner,
                        position.z,
                        x,
                        y as int + 1,
                        height as int,
                    ));
                    assert(buf@ + column_bytes_from(
                        self.protocol,
                        *map,
                        self.player,
                        corner,
                        position.z,
                        x,
                        y as int + 1,
                        height as int,
                    ) + rows_bytes_from(
                        self.protocol,
                        *map,
                        self.player,
                        corner,
                        position.z,
                        x as int + 1,
                        width as int,
                        height as int,
                    ) =~= prev + column_bytes_from(
                        self.protocol,
                        *map,
                        self.player,
                        corner,
                        position.z,
                        x,
                        y as int,
                        height as int,
                    ) + rows_bytes_from(
                        self.protocol,
                        *map,
                        self.player,
                        corner,
                        position.z,
                        x as int + 1,
                        width as int,
                        height as int,
                    ));
                }
                y = y + 1;
            }
            proof {
                assert(column_bytes_from(
                    self.protocol,
                    *map,
                    self.player,
                    corner,
                    position.z,
                    x,
                    height as int,
                    height as int,
                ) =~= Seq::<u8>::empty());
                assert(rows_bytes_from(
                    self.protocol,
                    *map,
                    self.player,
                    corner,
                    position.z,
                    x as int,
                    width as int,
                    height as int,
                ) == column_bytes_from(
                    self.protocol,
                    *map,
                    self.player,
                    corner,
                    position.z,
                    x,
                    0,
                    height as int,
                ) + rows_bytes_from(
                    self.protocol,
                    *map,
                    self.player,
                    corner,
                    position.z,
                    x as int + 1,
                    width as int,
                    height as int,
                ));
                assert(buf@ + column_bytes_from(
                    self.protocol,
                    *map,
                    self.player,
                    corner,
                    position.z,
                    x,
                    height as int,
                    height as int,
                ) + rows_bytes_from(
                    self.protocol,
                    *map,
                    self.player,
                    corner,
                    position.z,
                    x as int + 1,
                    width as int,
                    height as int,
                ) =~= buf@ + rows_bytes_from(
                    self.protocol,
                    *map,
                    self.player,
                    corner,
                    position.z,
                    x as int + 1,
                    width as int,
                    height as int,
                ));
            }
            x = x + 1;
        }
        proof {
            assert(rows_bytes_from(
                self.protocol,
                *map,
                self.player,
                corner,
                position.z,
                width as int,
                width as int,
                height as int,
            ) =~= Seq::<u8>::empty());
            assert(buf@ =~= whole);
        }
        buf
    }

    fn prepare_map_internal(
        &self,
        map: &WorldMap,
        position: Position,
        width: u16,
        height: u16,
        layers: u8,
    ) -> (r: Vec<u8>)
        requires
            map.wf(),
            self.player.outfit.wf(),
            1 <= width <= 0x7fff,
            1 <= height <= 0x7fff,
            1 <= layers,
        ensures
            r@ == map_chunk_bytes(
                self.protocol,
                *map,
                self.player,
                position,
                width as int,
                height as int,
                layers as int,
            ),
    {
        let dx = (width as i16 - 1) / 2;
        let dy = (height as i16 - 1) / 2;
        let corner = position.offset(0 - dx, 0 - dy, 0);
        proof {
            assert(corner == map_corner(position, width as int, height as int));
        }
        let ghost chunk = layers_bytes_from(
            self.protocol,
            *map,
            self.player,
            corner,
            width as int,
            height as int,
            0,
            layers as int,
        );
        let mut buf: Vec<u8> = Vec::new();
        let mut z: u8 = 0;
        while z < layers
            invariant
                z <= layers,
                map.wf(),
                self.player.outfit.wf(),
                chunk == layers_bytes_from(
                    self.protocol,
                    *map,
                    self.player,
                    corner,
                    width as int,
                    height as int,
                    0,
                    layers as int,
                ),
                buf@ + layers_bytes_from(
                    self.protocol,
                    *map,
                    self.player,
                    corner,
                    width as int,
                    height as int,
                    z as int,
                    layers as int,
                ) == chunk,
            decreases layers - z,
        {
            let layer = self.prepare_layer(
                map,
                Position::new(position.x, position.y, z),
                corner,
                width,
                height,
            );
            let ghost prev = buf@;
            write_bytes(&mut buf, &layer);
            proof {
                assert(layers_bytes_from(
                    self.protocol,
                    *map,
                    self.player,
                    corner,
                    width as int,
                    height as int,
                    z as int,
                    layers as int,
                ) == layer@ + layers_bytes_from(
                    self.protocol,
                    *map,
                    self.player,
                    corner,
                    width as int,
                    height as int,
                    z as int + 1,
                    layers as int,
                ));
                assert(buf@ + layers_bytes_from(
                    self.protocol,
                    *map,
                    self.player,
                    corner,
                    width as int,
                    height as int,
                    z as int + 1,
                    layers as int,
                ) =~= prev + layers_bytes_from(
                    self.protocol,
                    *map,
                    self.player,
                    corner,
                    width as int,
                    height as int,
                    z as int,
                    layers as int,
                ));
            }
            z = z + 1;
        }
        proof {
            assert(layers_bytes_from(
                self.protocol,
                *map,
                self.player,
                corner,
                width as int,
                height as int,
                layers as int,
                layers as int,
            ) =~= Seq::<u8>::empty());
            assert(buf@ =~= chunk);
            lemma_chunk_nonempty(
                self.protocol,
                *map,
                self.player,
                corner,
                width as int,
                height as int,
                layers as int,
            );
        }
        let _last = buf.pop();
        write_u8(&mut buf, 0xfe);
        write_u8(&mut buf, 0x00);
        proof {
            assert(chunk.take(chunk.len() - 1) =~= chunk.drop_last());
            assert(buf@ =~= map_chunk_bytes(
                self.protocol,
                *map,
                self.player,
                position,
                width as int,
                height as int,
                layers as int,
            ));
        }
        buf
    }

    fn prepare_map(
        &self,
        map: &WorldMap,
        position: Position,
        width: u16,
        height: u16,
        layers: u8,
    ) -> (r: Vec<u8>)
        requires
            map.wf(),
            self.player.outfit.wf(),
            1 <= width <= 0x7fff,
            1 <= height <= 0x7fff,
            1 <= layers,
        ensures
            r@ == map_area_bytes(
                self.protocol,
                *map,
                self.player,
                position,
                width as int,
                height as int,
                layers as int,
            ),
    {
        let mut buf: Vec<u8> = Vec::new();
        write_header(&mut buf, HeaderSend::MapArea, self.protocol);
        write_position(&mut buf, self.player.position, self.protocol);
        let chunk = self.prepare_map_internal(map, position, width, height, layers);
        write_bytes(&mut buf, &chunk);
        assert(buf@ =~= map_area_bytes(
            self.protocol,
            *map,
            self.player,
            position,
            width as int,
            height as int,
            layers as int,
        ));
        buf
    }
}

/// The strip of terrain that comes into view after one step: one row or
/// one column, centered ahead of the new position.
pub open spec fn move_dims(direction: Direction) -> (int, int) {
    match direction {
        Direction::North => (18int, 1int),
        Direction::South => (18int, 1int),
        Direction::East => (1int, 14int),
        Direction::West => (1int, 14int),
    }
}

pub open spec fn move_center(direction: Direction, to: Position) -> Position {
    match direction {
        Direction::North => to.spec_offset(0i16, -6i16, 0i8),
        Direction::East => to.spec_offset(9i16, 0i16, 0i8),
        Direction::South => to.spec_offset(0i16, 7i16, 0i8),
        Direction::West => to.spec_offset(-8i16, 0i16, 0i8),
    }
}

pub open spec fn move_layers(p: Protocol) -> int {
    if p == Protocol::Tibia103 {
        1
    } else {
        3
    }
}

pub open spec fn move_character_bytes(
    p: Protocol,
    map: WorldMap,
    player: Player,
    direction: Direction,
    to: Position,
) -> Seq<u8> {
    header_bytes(HeaderSend::from_spec(direction), p) + map_chunk_bytes(
        p,
        map,
        player,
        move_center(direction, to),
        move_dims(direction).0,
        move_dims(direction).1,
        move_layers(p),
    )
}

impl Connection {
    /// The movement feedback after one step: the move header plus the
    /// strip of terrain that just came into view.
    pub fn prepare_move_character(
        &self,
        map: &WorldMap,
        direction: Direction,
        from: Position,
        to: Position,
    ) -> (r: Vec<u8>)
        requires
            map.wf(),
            self.player.outfit.wf(),
        ensures
            r@ == move_character_bytes(self.protocol, *map, self.player, direction, to),
    {
        let (width, height): (u16, u16) = match direction {
            Direction::North => (18, 1),
            Direction::South => (18, 1),
            Direction::East => (1, 14),
            Direction::West => (1, 14),
        };
        let center = match direction {
            Direction::North => to.offset(0, -6, 0),
            Direction::East => to.offset(9, 0, 0),
            Direction::South => to.offset(0, 7, 0),
            Direction::West => to.offset(-8, 0, 0),
        };
        let layers: u8 = if self.protocol == Protocol::Tibia103 {
            1
        } else {
            3
        };
        let mut buf: Vec<u8> = Vec::new();
        write_header(&mut buf, HeaderSend::from(direction), self.protocol);
        let chunk = self.prepare_map_internal(map, center, width, height, layers);
        write_bytes(&mut buf, &chunk);
        assert(buf@ =~= move_character_bytes(self.protocol, *map, self.player, direction, to));
        buf
    }
}


// ---------------------------------------------------------------------
// Inbound message handlers
// ---------------------------------------------------------------------

/// What the session loop should do after one frame.
pub enum FrameDisposition {
    Continue,
    Logout,
    /// A debug command explicitly requested a panic, with its text.
    PanicRequested(Vec<u8>),
}

/// One handled frame's outcome: how to proceed, and the control events
/// to deliver to the world.
pub struct FrameOutcome {
    pub disposition: FrameDisposition,
    pub world_messages: Vec<PlayerToWorldMessage>,
}

/// The message text of a look-at answer.
pub open spec fn looking_at_text(position: Position, q: PositionQualifier) -> Seq<u8> {
    match q {
        PositionQualifier::Plain => looking_at_position_text() + seq![0x28u8] + dec_bytes(
            position.x as int,
        ) + seq![0x2cu8] + dec_bytes(position.y as int) + seq![0x2cu8] + dec_bytes(
            position.z as int,
        ) + seq![0x29u8],
        PositionQualifier::Container(container_index, item_index) => looking_at_index_text()
            + dec_bytes(item_index as int) + inside_container_text_spec() + dec_bytes(
            container_index as int,
        ) + seq![0x2eu8],
        PositionQualifier::Inventory(slot) => looking_at_text_prefix() + slot_name(slot),
    }
}

pub open spec fn slot_name(slot: InventorySlot) -> Seq<u8> {
    match slot {
        InventorySlot::Helmet => helmet_name(),
        InventorySlot::Necklace => necklace_name(),
        InventorySlot::Bag => bag_name(),
        InventorySlot::Armor => armor_name(),
        InventorySlot::RightHand => righthand_name(),
        InventorySlot::LeftHand => lefthand_name(),
        InventorySlot::Legs => legs_name(),
        InventorySlot::Boots => boots_name(),
    }
}

impl Connection {
    /// Pure acknowledgement: the payload is ignored.
    pub fn receive_set_text(&mut self, _payload: &Vec<u8>, _pos: &mut usize) -> (r: Result<
        (),
        DecodeError,
    >)
        ensures
            *final(self) == *old(self),
            *final(_pos) == *old(_pos),
            r is Ok,
    {
        Ok(())
    }

    /// Pure acknowledgement: the payload is ignored.
    pub fn receive_house_text(&mut self, _payload: &Vec<u8>, _pos: &mut usize) -> (r: Result<
        (),
        DecodeError,
    >)
        ensures
            *final(self) == *old(self),
            *final(_pos) == *old(_pos),
            r is Ok,
    {
        Ok(())
    }

    /// Pure acknowledgement.
    pub fn receive_exit_battle(&mut self, _payload: &Vec<u8>, _pos: &mut usize) -> (r: Result<
        (),
        DecodeError,
    >)
        ensures
            *final(self) == *old(self),
            *final(_pos) == *old(_pos),
            r is Ok,
    {
        Ok(())
    }

    /// Reads and validates the client's fight mode and stance; they are
    /// observed only.
    pub fn receive_change_mode(&mut self, payload: &Vec<u8>, pos: &mut usize) -> (r: Result<
        (),
        DecodeError,
    >)
        requires
            *old(pos) <= payload@.len(),
        ensures
            *final(self) == *old(self),
            match r {
                Ok(_) => {
                    &&& *old(pos) + 2 <= payload@.len()
                    &&& FightMode::spec_from_number(payload@[*old(pos) as int]) is Some
                    &&& FightStance::spec_from_number(payload@[*old(pos) + 1]) is Some
                    &&& *final(pos) == *old(pos) + 2
                },
                Err(e) => *final(pos) == *old(pos) && match e {
                    DecodeError::UnexpectedEnd => payload@.len() < *old(pos) + 2,
                    DecodeError::InvalidFightMode(b) => b == payload@[*old(pos) as int]
                        && FightMode::spec_from_number(b) is None,
                    DecodeError::InvalidFightStance(b) => b == payload@[*old(pos) + 1]
                        && FightMode::spec_from_number(payload@[*old(pos) as int]) is Some
                        && FightStance::spec_from_number(b) is None,
                    _ => false,
                },
            },
    {
        if payload.len() - *pos < 2 {
            return Err(DecodeError::UnexpectedEnd);
        }
        let mode_byte = payload[*pos];
        let stance_byte = payload[*pos + 1];
        if FightMode::try_from_number(mode_byte).is_none() {
            return Err(DecodeError::InvalidFightMode(mode_byte));
        }
        if FightStance::try_from_number(stance_byte).is_none() {
            return Err(DecodeError::InvalidFightStance(stance_byte));
        }
        *pos = *pos + 2;
        Ok(())
    }

    /// Answers a player-info request: the rest of the payload is the
    /// asked-about name, and a user-info reply is queued.
    pub fn receive_player_info(&mut self, payload: &Vec<u8>, pos: &mut usize) -> (r: Result<
        (),
        DecodeError,
    >)
        requires
            *old(pos) <= payload@.len(),
            payload@.len() <= 0xffff,
        ensures
            final(self).same_player_state(*old(self)),
            final(self).player == old(self).player,
            final(self).next_motd_number == old(self).next_motd_number,
            final(self).next_chat_type == old(self).next_chat_type,
            r is Ok,
            *final(pos) == payload@.len(),
            final(self).queued() == old(self).queued().push(
                user_info_bytes(
                    old(self).protocol,
                    bytes_until_null(payload@.subrange(*old(pos) as int, payload@.len() as int)),
                ),
            ),
    {
        let remaining = (payload.len() - *pos) as u16;
        let player_name = match read_string(payload, pos, remaining) {
            Ok(s) => s,
            Err(_) => {
                proof {
                    assert(false);
                }
                unreached()
            },
        };
        let message = self.prepare_user_info(&player_name);
        assert(message@.len() > 0);
        self.queue_message(message);
        Ok(())
    }

    /// Answers a user-list request with the only user there is.
    pub fn receive_user_list(&mut self, _payload: &Vec<u8>, _pos: &mut usize) -> (r: Result<
        (),
        DecodeError,
    >)
        ensures
            final(self).same_player_state(*old(self)),
            final(self).player == old(self).player,
            final(self).next_motd_number == old(self).next_motd_number,
            final(self).next_chat_type == old(self).next_chat_type,
            *final(_pos) == *old(_pos),
            r is Ok,
            final(self).queued() == old(self).queued().push(
                user_list_bytes(old(self).protocol, old(self).player.name@),
            ),
    {
        let message = self.prepare_user_list();
        assert(message@.len() > 0);
        self.queue_message(message);
        Ok(())
    }

    /// Reads a push (move object) request and validates both of its
    /// qualified positions; the move itself is observed only.
    pub fn receive_push(&mut self, payload: &Vec<u8>, pos: &mut usize) -> (r: Result<
        (),
        DecodeError,
    >)
        requires
            *old(pos) <= payload@.len(),
        ensures
            *final(self) == *old(self),
            ({
                let plen = position_len(old(self).protocol);
                let need = if old(self).protocol == Protocol::Tibia103 {
                    2 * plen + 3
                } else {
                    2 * plen + 4
                };
                let from = decode_position(
                    payload@.subrange(*old(pos) as int, *old(pos) + plen),
                    old(self).protocol,
                );
                let to = decode_position(
                    payload@.subrange(*old(pos) + plen + 3, *old(pos) + 2 * plen + 3),
                    old(self).protocol,
                );
                match r {
                    Ok(_) => {
                        &&& *old(pos) + need <= payload@.len()
                        &&& from.spec_qualifier() is Ok
                        &&& to.spec_qualifier() is Ok
                        &&& *final(pos) == *old(pos) + need
                    },
                    Err(e) => match e {
                        DecodeError::UnexpectedEnd => payload@.len() < *old(pos) + need && *final(pos) == *old(pos),
                        DecodeError::InvalidInventorySlot(_) => {
                            &&& *old(pos) + need <= payload@.len()
                            &&& *final(pos) == *old(pos) + need
                            &&& (from.spec_qualifier() == Err::<PositionQualifier, DecodeError>(e)
                                || (from.spec_qualifier() is Ok && to.spec_qualifier() == Err::<
                                PositionQualifier,
                                DecodeError,
                            >(e)))
                        },
                        _ => false,
                    },
                }
            }),
    {
        let plen: usize = if self.protocol == Protocol::Tibia103 {
            2
        } else {
            5
        };
        let need: usize = if self.protocol == Protocol::Tibia103 {
            2 * plen + 3
        } else {
            2 * plen + 4
        };
        if payload.len() - *pos < need {
            return Err(DecodeError::UnexpectedEnd);
        }
        let position_from = match read_position(payload, pos, self.protocol) {
            Ok(p) => p,
            Err(_) => {
                proof {
                    assert(false);
                }
                unreached()
            },
        };
        let _object_id = match read_u16_le(payload, pos) {
            Ok(v) => v,
            Err(_) => {
                proof {
                    assert(false);
                }
                unreached()
            },
        };
        let _stack_pos = match read_u8(payload, pos) {
            Ok(v) => v,
            Err(_) => {
                proof {
                    assert(false);
                }
                unreached()
            },
        };
        let position_to = match read_position(payload, pos, self.protocol) {
            Ok(p) => p,
            Err(_) => {
                proof {
                    assert(false);
                }
                unreached()
            },
        };
        if self.protocol != Protocol::Tibia103 {
            let _count = match read_u8(payload, pos) {
                Ok(v) => v,
                Err(_) => {
                    proof {
                        assert(false);
                    }
                    unreached()
                },
            };
        }
        let _from_qualifier = match position_from.get_qualifier() {
            Ok(q) => q,
            Err(e) => {
                return Err(e);
            },
        };
        let _to_qualifier = match position_to.get_qualifier() {
            Ok(q) => q,
            Err(e) => {
                return Err(e);
            },
        };
        Ok(())
    }

    /// Applies a profile change: the outfit colors read from the payload
    /// become the player's outfit, and the change is echoed back.
    pub fn receive_set_data(&mut self, payload: &Vec<u8>, pos: &mut usize) -> (r: Result<
        (),
        DecodeError,
    >)
        requires
            *old(pos) <= payload@.len(),
        ensures
            final(self).protocol == old(self).protocol,
            final(self).player_id == old(self).player_id,
            final(self).debug_commands_enabled == old(self).debug_commands_enabled,
            final(self).next_motd_number == old(self).next_motd_number,
            final(self).next_chat_type == old(self).next_chat_type,
            final(self).player.id == old(self).player.id,
            final(self).player.name@ == old(self).player.name@,
            final(self).player.position == old(self).player.position,
            final(self).player.skills == old(self).player.skills,
            final(self).player.stats == old(self).player.stats,
            final(self).player.gender == old(self).player.gender,
            ({
                let p = old(self).protocol;
                let need = if p.spec_number() <= 501 {
                    if p.spec_number() >= 400 {
                        683int
                    } else {
                        183int
                    }
                } else {
                    3int
                };
                let off = if p.spec_number() <= 501 {
                    *old(pos) + 30
                } else {
                    *old(pos) as int
                };
                match r {
                    Ok(_) => {
                        &&& *old(pos) + need <= payload@.len()
                        &&& *final(pos) == *old(pos) + need
                        &&& final(self).player.outfit == decode_outfit_colors(
                            payload@.subrange(off, off + 3),
                        )
                        &&& final(self).player.outfit.wf()
                        &&& final(self).queued() == (if p == Protocol::Tibia103 {
                            old(self).queued()
                        } else {
                            old(self).queued().push(
                                update_outfit_bytes(
                                    p,
                                    old(self).player.id,
                                    CharacterOutfit::Human,
                                    final(self).player.outfit,
                                ),
                            )
                        })
                    },
                    Err(e) => {
                        &&& e == DecodeError::UnexpectedEnd
                        &&& payload@.len() < *old(pos) + need
                        &&& *final(pos) == *old(pos)
                        &&& *final(self) == *old(self)
                    },
                }
            }),
    {
        let outfit;
        if self.protocol.number() <= 501 {
            let need: usize = if self.protocol.number() >= 400 {
                683
            } else {
                183
            };
            if payload.len() - *pos < need {
                return Err(DecodeError::UnexpectedEnd);
            }
            let _password = match read_string(payload, pos, 30) {
                Ok(s) => s,
                Err(_) => {
                    proof {
                        assert(false);
                    }
                    unreached()
                },
            };
            outfit = match read_outfit_colors(payload, pos) {
                Ok(o) => o,
                Err(_) => {
                    proof {
                        assert(false);
                    }
                    unreached()
                },
            };
            let _real_name = match read_string(payload, pos, 50) {
                Ok(s) => s,
                Err(_) => {
                    proof {
                        assert(false);
                    }
                    unreached()
                },
            };
            let _location = match read_string(payload, pos, 50) {
                Ok(s) => s,
                Err(_) => {
                    proof {
                        assert(false);
                    }
                    unreached()
                },
            };
            let _email = match read_string(payload, pos, 50) {
                Ok(s) => s,
                Err(_) => {
                    proof {
                        assert(false);
                    }
                    unreached()
                },
            };
            if self.protocol.number() >= 400 {
                let _comment = match read_string(payload, pos, 500) {
                    Ok(s) => s,
                    Err(_) => {
                        proof {
                            assert(false);
                        }
                        unreached()
                    },
                };
            }
        } else {
            if payload.len() - *pos < 3 {
                return Err(DecodeError::UnexpectedEnd);
            }
            outfit = match read_outfit_colors(payload, pos) {
                Ok(o) => o,
                Err(_) => {
                    proof {
                        assert(false);
                    }
                    unreached()
                },
            };
        }
        let message = self.prepare_update_outfit(self.player.id, CharacterOutfit::Human, outfit);
        self.queue_message(message);
        self.player.outfit = outfit;
        Ok(())
    }

    /// Answers a change-data request with the profile window.
    pub fn receive_change_data(&mut self, _payload: &Vec<u8>, _pos: &mut usize) -> (r: Result<
        (),
        DecodeError,
    >)
        requires
            old(self).player.outfit.wf(),
        ensures
            final(self).same_player_state(*old(self)),
            final(self).player == old(self).player,
            final(self).next_motd_number == old(self).next_motd_number,
            final(self).next_chat_type == old(self).next_chat_type,
            *final(_pos) == *old(_pos),
            r is Ok,
            final(self).queued() == old(self).queued().push(
                data_window_bytes(old(self).protocol, old(self).player),
            ),
    {
        let message = self.prepare_data_window();
        assert(message@.len() > 0);
        self.queue_message(message);
        Ok(())
    }

    /// Reads a set-target request; targeting is observed only.
    pub fn receive_set_target(&mut self, payload: &Vec<u8>, pos: &mut usize) -> (r: Result<
        (),
        DecodeError,
    >)
        requires
            *old(pos) <= payload@.len(),
        ensures
            *final(self) == *old(self),
            match r {
                Ok(_) => *old(pos) + 4 <= payload@.len() && *final(pos) == *old(pos) + 4,
                Err(e) => e == DecodeError::UnexpectedEnd && payload@.len() < *old(pos) + 4
                    && *final(pos) == *old(pos),
            },
    {
        match read_u32_le(payload, pos) {
            Ok(_target_id) => Ok(()),
            Err(e) => Err(e),
        }
    }

    /// Reads a use-item request and answers with the placeholder open
    /// container.
    pub fn receive_use_item(&mut self, payload: &Vec<u8>, pos: &mut usize) -> (r: Result<
        (),
        DecodeError,
    >)
        requires
            *old(pos) <= payload@.len(),
        ensures
            final(self).same_player_state(*old(self)),
            final(self).player == old(self).player,
            final(self).next_motd_number == old(self).next_motd_number,
            final(self).next_chat_type == old(self).next_chat_type,
            ({
                let need = position_len(old(self).protocol) + 5;
                match r {
                    Ok(_) => {
                        &&& *old(pos) + need <= payload@.len()
                        &&& *final(pos) == *old(pos) + need
                        &&& final(self).queued() == old(self).queued().push(
                            open_container_bytes(old(self).protocol),
                        )
                    },
                    Err(e) => {
                        &&& e == DecodeError::UnexpectedEnd
                        &&& payload@.len() < *old(pos) + need
                        &&& *final(pos) == *old(pos)
                        &&& final(self).queued() == old(self).queued()
                    },
                }
            }),
    {
        let plen: usize = if self.protocol == Protocol::Tibia103 {
            2
        } else {
            5
        };
        if payload.len() - *pos < plen + 5 {
            return Err(DecodeError::UnexpectedEnd);
        }
        let _item_type = match read_u8(payload, pos) {
            Ok(v) => v,
            Err(_) => {
                proof {
                    assert(false);
                }
                unreached()
            },
        };
        let _position = match read_position(payload, pos, self.protocol) {
            Ok(p) => p,
            Err(_) => {
                proof {
                    assert(false);
                }
                unreached()
            },
        };
        let _item_id = match read_u16_le(payload, pos) {
            Ok(v) => v,
            Err(_) => {
                proof {
                    assert(false);
                }
                unreached()
            },
        };
        let _stack_pos = match read_u8(payload, pos) {
            Ok(v) => v,
            Err(_) => {
                proof {
                    assert(false);
                }
                unreached()
            },
        };
        let _unknown = match read_u8(payload, pos) {
            Ok(v) => v,
            Err(_) => {
                proof {
                    assert(false);
                }
                unreached()
            },
        };
        let message = self.prepare_open_container();
        assert(message@.len() > 0);
        self.queue_message(message);
        Ok(())
    }

    /// Closes a container by its local id, echoing the close.
    pub fn receive_close_container(&mut self, payload: &Vec<u8>, pos: &mut usize) -> (r: Result<
        (),
        DecodeError,
    >)
        requires
            *old(pos) <= payload@.len(),
        ensures
            final(self).same_player_state(*old(self)),
            final(self).player == old(self).player,
            final(self).next_motd_number == old(self).next_motd_number,
            final(self).next_chat_type == old(self).next_chat_type,
            match r {
                Ok(_) => {
                    &&& *old(pos) + 1 <= payload@.len()
                    &&& *final(pos) == *old(pos) + 1
                    &&& final(self).queued() == old(self).queued().push(
                        close_container_bytes(old(self).protocol, payload@[*old(pos) as int]),
                    )
                },
                Err(e) => {
                    &&& e == DecodeError::UnexpectedEnd
                    &&& payload@.len() < *old(pos) + 1
                    &&& *final(pos) == *old(pos)
                    &&& final(self).queued() == old(self).queued()
                },
            },
    {
        let local_id = match read_u8(payload, pos) {
            Ok(v) => v,
            Err(e) => {
                return Err(e);
            },
        };
        let message = self.prepare_close_container(local_id);
        assert(message@.len() > 0);
        self.queue_message(message);
        Ok(())
    }

    /// Answers a look-at request with a descriptive chat line rendered
    /// from the looked-at position or qualified reference.
    pub fn receive_look_at(&mut self, payload: &Vec<u8>, pos: &mut usize) -> (r: Result<
        (),
        DecodeError,
    >)
        requires
            *old(pos) <= payload@.len(),
        ensures
            final(self).same_player_state(*old(self)),
            final(self).player == old(self).player,
            final(self).next_motd_number == old(self).next_motd_number,
            final(self).next_chat_type == old(self).next_chat_type,
            ({
                let plen = position_len(old(self).protocol);
                let position = decode_position(
                    payload@.subrange(*old(pos) as int, *old(pos) + plen),
                    old(self).protocol,
                );
                match r {
                    Ok(_) => {
                        &&& *old(pos) + plen <= payload@.len()
                        &&& *final(pos) == *old(pos) + plen
                        &&& position.spec_qualifier() is Ok
                        &&& final(self).queued() == old(self).queued().push(
                            chat_bytes(
                                old(self).protocol,
                                ChatType::GreenScreenOnly,
                                looking_at_text(position, position.spec_qualifier().unwrap()),
                                None,
                                Some(old(self).player.position),
                            ),
                        )
                    },
                    Err(e) => final(self).queued() == old(self).queued() && match e {
                        DecodeError::UnexpectedEnd => payload@.len() < *old(pos) + plen && *final(pos) == *old(pos),
                        DecodeError::InvalidInventorySlot(_) => position.spec_qualifier() == Err::<
                            PositionQualifier,
                            DecodeError,
                        >(e) && *final(pos) == *old(pos) + plen,
                        _ => false,
                    },
                }
            }),
    {
        let position = match read_position(payload, pos, self.protocol) {
            Ok(p) => p,
            Err(e) => {
                return Err(e);
            },
        };
        let qualifier = match position.get_qualifier() {
            Ok(q) => q,
            Err(e) => {
                return Err(e);
            },
        };
        let msg = render_looking_at(position, qualifier);
        let message = self.prepare_chat(
            ChatType::GreenScreenOnly,
            &msg,
            None,
            Some(self.player.position),
        );
        assert(message@.len() > 0);
        self.queue_message(message);
        Ok(())
    }

    /// Turns the player in place: the tile is refreshed and the new
    /// facing announced (no bytes under the oldest revision).
    pub fn receive_change_direction(&mut self, payload: &Vec<u8>, pos: &mut usize) -> (r: Result<
        (),
        DecodeError,
    >)
        requires
            *old(pos) <= payload@.len(),
        ensures
            final(self).same_player_state(*old(self)),
            final(self).player == old(self).player,
            final(self).next_motd_number == old(self).next_motd_number,
            final(self).next_chat_type == old(self).next_chat_type,
            match r {
                Ok(_) => {
                    &&& *old(pos) + 1 <= payload@.len()
                    &&& *final(pos) == *old(pos) + 1
                    &&& ({
                        let direction = Direction::spec_from_number(payload@[*old(pos) as int]);
                        &&& direction is Some
                        &&& final(self).queued() == (if old(self).protocol == Protocol::Tibia103 {
                            old(self).queued()
                        } else {
                            old(self).queued().push(
                                update_object_bytes(
                                    old(self).protocol,
                                    old(self).player.position,
                                    ObjectUpdateType::Update,
                                    1,
                                ) + change_direction_bytes(
                                    old(self).protocol,
                                    old(self).player.id,
                                    direction.unwrap(),
                                ),
                            )
                        })
                    })
                },
                Err(e) => final(self).queued() == old(self).queued() && match e {
                    DecodeError::UnexpectedEnd => payload@.len() < *old(pos) + 1 && *final(pos)
                        == *old(pos),
                    DecodeError::InvalidDirection(b) => b == payload@[*old(pos) as int]
                        && Direction::spec_from_number(b) is None && *final(pos) == *old(pos) + 1,
                    _ => false,
                },
            },
    {
        let direction_byte = match read_u8(payload, pos) {
            Ok(v) => v,
            Err(e) => {
                return Err(e);
            },
        };
        let direction = match Direction::try_from_number(direction_byte) {
            Some(d) => d,
            None => {
                return Err(DecodeError::InvalidDirection(direction_byte));
            },
        };
        let mut msg = self.prepare_update_object(
            self.player.position,
            ObjectUpdateType::Update,
            1,
        );
        let tail = self.prepare_change_direction(self.player.id, direction);
        write_bytes(&mut msg, &tail);
        self.queue_message(msg);
        Ok(())
    }

    /// Reads an auto-walk destination; path finding is observed only.
    pub fn receive_auto_walk(&mut self, payload: &Vec<u8>, pos: &mut usize) -> (r: Result<
        (),
        DecodeError,
    >)
        requires
            *old(pos) <= payload@.len(),
        ensures
            *final(self) == *old(self),
            match r {
                Ok(_) => *old(pos) + position_len(old(self).protocol) <= payload@.len() && *final(pos) == *old(pos) + position_len(old(self).protocol),
                Err(e) => e == DecodeError::UnexpectedEnd && payload@.len() < *old(pos)
                    + position_len(old(self).protocol) && *final(pos) == *old(pos),
            },
    {
        match read_position(payload, pos, self.protocol) {
            Ok(_position) => Ok(()),
            Err(e) => Err(e),
        }
    }

    /// Walks the player one tile: the position advances, the world is
    /// told, the character moves between tiles on the wire, and the
    /// strip of terrain that came into view is sent.  The oldest
    /// revision receives only the terrain strip: its object add/remove
    /// feedback is incomplete upstream.
    pub fn receive_walk(&mut self, map: &WorldMap, payload: &Vec<u8>, pos: &mut usize) -> (r:
        Result<PlayerToWorldMessage, DecodeError>)
        requires
            *old(pos) <= payload@.len(),
            map.wf(),
            old(self).player.outfit.wf(),
        ensures
            final(self).protocol == old(self).protocol,
            final(self).player_id == old(self).player_id,
            final(self).debug_commands_enabled == old(self).debug_commands_enabled,
            final(self).next_motd_number == old(self).next_motd_number,
            final(self).next_chat_type == old(self).next_chat_type,
            final(self).player.id == old(self).player.id,
            final(self).player.name@ == old(self).player.name@,
            final(self).player.outfit == old(self).player.outfit,
            final(self).player.gender == old(self).player.gender,
            final(self).player.skills == old(self).player.skills,
            final(self).player.stats == old(self).player.stats,
            match r {
                Ok(ev) => {
                    &&& *old(pos) + 1 <= payload@.len()
                    &&& *final(pos) == *old(pos) + 1
                    &&& ev == PlayerToWorldMessage::Walk(old(self).player.id)
                    &&& ({
                        let direction = Direction::spec_from_number(payload@[*old(pos) as int]);
                        &&& direction is Some
                        &&& final(self).player.position == old(self).player.position.spec_step(
                            direction.unwrap(),
                        )
                        &&& final(self).queued() == (if old(self).protocol == Protocol::Tibia103 {
                            old(self).queued().push(
                                move_character_bytes(
                                    old(self).protocol,
                                    *map,
                                    final(self).player,
                                    direction.unwrap(),
                                    final(self).player.position,
                                ),
                            )
                        } else {
                            old(self).queued().push(
                                update_object_bytes(
                                    old(self).protocol,
                                    old(self).player.position,
                                    ObjectUpdateType::Remove,
                                    1,
                                ),
                            ).push(
                                update_object_bytes(
                                    old(self).protocol,
                                    final(self).player.position,
                                    ObjectUpdateType::Add,
                                    1,
                                ) + change_direction_bytes(
                                    old(self).protocol,
                                    old(self).player.id,
                                    direction.unwrap(),
                                ),
                            ).push(
                                move_character_bytes(
                                    old(self).protocol,
                                    *map,
                                    final(self).player,
                                    direction.unwrap(),
                                    final(self).player.position,
                                ),
                            )
                        })
                    })
                },
                Err(e) => final(self).player.position == old(self).player.position && final(self).queued() == old(self).queued() && match e {
                    DecodeError::UnexpectedEnd => payload@.len() < *old(pos) + 1 && *final(pos)
                        == *old(pos),
                    DecodeError::InvalidDirection(b) => b == payload@[*old(pos) as int]
                        && Direction::spec_from_number(b) is None && *final(pos) == *old(pos) + 1,
                    _ => false,
                },
            },
    {
        let direction_byte = match read_u8(payload, pos) {
            Ok(v) => v,
            Err(e) => {
                return Err(e);
            },
        };
        let direction = match Direction::try_from_number(direction_byte) {
            Some(d) => d,
            None => {
                return Err(DecodeError::InvalidDirection(direction_byte));
            },
        };
        let event = PlayerToWorldMessage::Walk(self.player.id);
        let old_position = self.player.position;
        let new_position = old_position.step(direction);
        self.player.position = new_position;
        if self.protocol == Protocol::Tibia103 {
        } else {
            let remove_msg = self.prepare_update_object(old_position, ObjectUpdateType::Remove, 1);
            assert(remove_msg@.len() > 0);
            self.queue_message(remove_msg);
            let mut add_msg = self.prepare_update_object(new_position, ObjectUpdateType::Add, 1);
            let tail = self.prepare_change_direction(self.player.id, direction);
            write_bytes(&mut add_msg, &tail);
            assert(add_msg@.len() > 0);
            self.queue_message(add_msg);
        }
        let move_msg = self.prepare_move_character(map, direction, old_position, new_position);
        assert(move_msg@.len() > 0);
        self.queue_message(move_msg);
        Ok(event)
    }

    /// Reads a comment from the client; it is observed only.
    pub fn receive_comment(&mut self, payload: &Vec<u8>, pos: &mut usize) -> (r: Result<
        (),
        DecodeError,
    >)
        requires
            *old(pos) <= payload@.len(),
            payload@.len() <= 0xffff,
        ensures
            *final(self) == *old(self),
            r is Ok,
            *final(pos) == payload@.len(),
    {
        let remaining = (payload.len() - *pos) as u16;
        let _msg = match read_string(payload, pos, remaining) {
            Ok(s) => s,
            Err(_) => {
                proof {
                    assert(false);
                }
                unreached()
            },
        };
        Ok(())
    }

    /// Applies one pending world broadcast: versions before the first
    /// that understands the world-light message ignore it.
    pub fn handle_world_message(&mut self, msg: WorldToPlayerMessage)
        ensures
            final(self).same_player_state(*old(self)),
            final(self).player == old(self).player,
            final(self).next_motd_number == old(self).next_motd_number,
            final(self).next_chat_type == old(self).next_chat_type,
            final(self).queued() == (if old(self).protocol.spec_number() >= 300 {
                match msg {
                    WorldToPlayerMessage::WorldLight(light_level) => old(self).queued().push(
                        world_light_bytes(old(self).protocol, light_level),
                    ),
                }
            } else {
                old(self).queued()
            }),
    {
        if self.protocol.number() >= 300 {
            match msg {
                WorldToPlayerMessage::WorldLight(light_level) => {
                    let message = self.prepare_world_light(light_level);
                    assert(message@.len() > 0);
                    self.queue_message(message);
                },
            }
        }
    }
}

/// Renders the look-at answer text for a position or qualified
/// reference.
fn render_looking_at(position: Position, qualifier: PositionQualifier) -> (r: Vec<u8>)
    ensures
        r@ == looking_at_text(position, qualifier),
{
    match qualifier {
        PositionQualifier::Plain => {
            let mut out = looking_at_position_prefix();
            out.push(0x28);
            let x = render_u16_dec(position.x);
            write_bytes(&mut out, &x);
            out.push(0x2c);
            let y = render_u16_dec(position.y);
            write_bytes(&mut out, &y);
            out.push(0x2c);
            let z = render_u16_dec(position.z as u16);
            write_bytes(&mut out, &z);
            out.push(0x29);
            assert(out@ =~= looking_at_text(position, qualifier));
            out
        },
        PositionQualifier::Container(container_index, item_index) => {
            let mut out = looking_at_index_prefix();
            let item = render_u16_dec(item_index as u16);
            write_bytes(&mut out, &item);
            let mid = inside_container_text();
            write_bytes(&mut out, &mid);
            let container = render_u16_dec(container_index);
            write_bytes(&mut out, &container);
            out.push(0x2e);
            assert(out@ =~= looking_at_text(position, qualifier));
            out
        },
        PositionQualifier::Inventory(slot) => {
            let mut out = looking_at_prefix();
            let name = render_slot_name(slot);
            write_bytes(&mut out, &name);
            assert(out@ =~= looking_at_text(position, qualifier));
            out
        },
    }
}


pub open spec fn looking_at_position_text() -> Seq<u8> {
    seq![0x4cu8, 0x6fu8, 0x6fu8, 0x6bu8, 0x69u8, 0x6eu8, 0x67u8, 0x20u8, 0x61u8, 0x74u8, 0x20u8, 0x70u8, 0x6fu8, 0x73u8, 0x69u8, 0x74u8, 0x69u8, 0x6fu8, 0x6eu8, 0x20u8]
}


pub open spec fn looking_at_index_text() -> Seq<u8> {
    seq![0x4cu8, 0x6fu8, 0x6fu8, 0x6bu8, 0x69u8, 0x6eu8, 0x67u8, 0x20u8, 0x61u8, 0x74u8, 0x20u8, 0x69u8, 0x6eu8, 0x64u8, 0x65u8, 0x78u8, 0x20u8]
}


pub open spec fn inside_container_text_spec() -> Seq<u8> {
    seq![0x20u8, 0x69u8, 0x6eu8, 0x73u8, 0x69u8, 0x64u8, 0x65u8, 0x20u8, 0x63u8, 0x6fu8, 0x6eu8, 0x74u8, 0x61u8, 0x69u8, 0x6eu8, 0x65u8, 0x72u8, 0x20u8]
}


pub open spec fn looking_at_text_prefix() -> Seq<u8> {
    seq![0x4cu8, 0x6fu8, 0x6fu8, 0x6bu8, 0x69u8, 0x6eu8, 0x67u8, 0x20u8, 0x61u8, 0x74u8, 0x20u8]
}


pub open spec fn helmet_name() -> Seq<u8> {
    seq![0x48u8, 0x65u8, 0x6cu8, 0x6du8, 0x65u8, 0x74u8]
}


pub open spec fn necklace_name() -> Seq<u8> {
    seq![0x4eu8, 0x65u8, 0x63u8, 0x6bu8, 0x6cu8, 0x61u8, 0x63u8, 0x65u8]
}


pub open spec fn bag_name() -> Seq<u8> {
    seq![0x42u8, 0x61u8, 0x67u8]
}


pub open spec fn armor_name() -> Seq<u8> {
    seq![0x41u8, 0x72u8, 0x6du8, 0x6fu8, 0x72u8]
}


pub open spec fn righthand_name() -> Seq<u8> {
    seq![0x52u8, 0x69u8, 0x67u8, 0x68u8, 0x74u8, 0x48u8, 0x61u8, 0x6eu8, 0x64u8]
}


pub open spec fn lefthand_name() -> Seq<u8> {
    seq![0x4cu8, 0x65u8, 0x66u8, 0x74u8, 0x48u8, 0x61u8, 0x6eu8, 0x64u8]
}


pub open spec fn legs_name() -> Seq<u8> {
    seq![0x4cu8, 0x65u8, 0x67u8, 0x73u8]
}


pub open spec fn boots_name() -> Seq<u8> {
    seq![0x42u8, 0x6fu8, 0x6fu8, 0x74u8, 0x73u8]
}


fn looking_at_position_prefix() -> (r: Vec<u8>)
    ensures
        r@ == looking_at_position_text(),
{
    let mut out: Vec<u8> = Vec::new();
    out.push(0x4c);
    out.push(0x6f);
    out.push(0x6f);
    out.push(0x6b);
    out.push(0x69);
    out.push(0x6e);
    out.push(0x67);
    out.push(0x20);
    out.push(0x61);
    out.push(0x74);
    out.push(0x20);
    out.push(0x70);
    out.push(0x6f);
    out.push(0x73);
    out.push(0x69);
    out.push(0x74);
    out.push(0x69);
    out.push(0x6f);
    out.push(0x6e);
    out.push(0x20);
    assert(out@ =~= looking_at_position_text());
    out
}


fn looking_at_index_prefix() -> (r: Vec<u8>)
    ensures
        r@ == looking_at_index_text(),
{
    let mut out: Vec<u8> = Vec::new();
    out.push(0x4c);
    out.push(0x6f);
    out.push(0x6f);
    out.push(0x6b);
    out.push(0x69);
    out.push(0x6e);
    out.push(0x67);
    out.push(0x20);
    out.push(0x61);
    out.push(0x74);
    out.push(0x20);
    out.push(0x69);
    out.push(0x6e);
    out.push(0x64);
    out.push(0x65);
    out.push(0x78);
    out.push(0x20);
    assert(out@ =~= looking_at_index_text());
    out
}


fn inside_container_text() -> (r: Vec<u8>)
    ensures
        r@ == inside_container_text_spec(),
{
    let mut out: Vec<u8> = Vec::new();
    out.push(0x20);
    out.push(0x69);
    out.push(0x6e);
    out.push(0x73);
    out.push(0x69);
    out.push(0x64);
    out.push(0x65);
    out.push(0x20);
    out.push(0x63);
    out.push(0x6f);
    out.push(0x6e);
    out.push(0x74);
    out.push(0x61);
    out.push(0x69);
    out.push(0x6e);
    out.push(0x65);
    out.push(0x72);
    out.push(0x20);
    assert(out@ =~= inside_container_text_spec());
    out
}


fn looking_at_prefix() -> (r: Vec<u8>)
    ensures
        r@ == looking_at_text_prefix(),
{
    let mut out: Vec<u8> = Vec::new();
    out.push(0x4c);
    out.push(0x6f);
    out.push(0x6f);
    out.push(0x6b);
    out.push(0x69);
    out.push(0x6e);
    out.push(0x67);
    out.push(0x20);
    out.push(0x61);
    out.push(0x74);
    out.push(0x20);
    assert(out@ =~= looking_at_text_prefix());
    out
}


fn render_slot_name(slot: InventorySlot) -> (r: Vec<u8>)
    ensures
        r@ == slot_name(slot),
{
    let mut out: Vec<u8> = Vec::new();
    match slot {
        InventorySlot::Helmet => {
            out.push(0x48);
            out.push(0x65);
            out.push(0x6c);
            out.push(0x6d);
            out.push(0x65);
            out.push(0x74);
        },
        InventorySlot::Necklace => {
            out.push(0x4e);
            out.push(0x65);
            out.push(0x63);
            out.push(0x6b);
            out.push(0x6c);
            out.push(0x61);
            out.push(0x63);
            out.push(0x65);
        },
        InventorySlot::Bag => {
            out.push(0x42);
            out.push(0x61);
            out.push(0x67);
        },
        InventorySlot::Armor => {
            out.push(0x41);
            out.push(0x72);
            out.push(0x6d);
            out.push(0x6f);
            out.push(0x72);
        },
        InventorySlot::RightHand => {
            out.push(0x52);
            out.push(0x69);
            out.push(0x67);
            out.push(0x68);
            out.push(0x74);
            out.push(0x48);
            out.push(0x61);
            out.push(0x6e);
            out.push(0x64);
        },
        InventorySlot::LeftHand => {
            out.push(0x4c);
            out.push(0x65);
            out.push(0x66);
            out.push(0x74);
            out.push(0x48);
            out.push(0x61);
            out.push(0x6e);
            out.push(0x64);
        },
        InventorySlot::Legs => {
            out.push(0x4c);
            out.push(0x65);
            out.push(0x67);
            out.push(0x73);
        },
        InventorySlot::Boots => {
            out.push(0x42);
            out.push(0x6f);
            out.push(0x6f);
            out.push(0x74);
            out.push(0x73);
        },
    }
    assert(out@ =~= slot_name(slot));
    out
}


// ---------------------------------------------------------------------
// Chat, login info and the frame dispatcher
// ---------------------------------------------------------------------

pub open spec fn hello_world_text() -> Seq<u8> {
    seq![0x48u8, 0x65u8, 0x6cu8, 0x6cu8, 0x6fu8, 0x2cu8, 0x20u8, 0x57u8, 0x6fu8, 0x72u8, 0x6cu8, 0x64u8, 0x21u8]
}

fn hello_world() -> (r: Vec<u8>)
    ensures
        r@ == hello_world_text(),
{
    let mut out: Vec<u8> = Vec::new();
    out.push(0x48);
    out.push(0x65);
    out.push(0x6c);
    out.push(0x6c);
    out.push(0x6f);
    out.push(0x2c);
    out.push(0x20);
    out.push(0x57);
    out.push(0x6f);
    out.push(0x72);
    out.push(0x6c);
    out.push(0x64);
    out.push(0x21);
    assert(out@ =~= hello_world_text());
    out
}

/// Everything queued right after a successful login, in order: the login
/// acknowledgement, the player's stats and skills where the version has
/// them, the placeholder equipment, the map around the spawn point, and
/// the greeting.  The oldest revision receives a shorter sequence.
pub open spec fn login_info_messages(p: Protocol, map: WorldMap, player: Player) -> Seq<Seq<u8>> {
    if p == Protocol::Tibia103 {
        seq![
            login_bytes(p, player.id),
            equipped_item_bytes(p, InventorySlot::Bag, 0x013d, 0),
            equipped_item_bytes(p, InventorySlot::RightHand, 0x015a, 0),
            equipped_item_bytes(p, InventorySlot::LeftHand, 0x025a, 0),
            map_area_bytes(p, map, player, player.position, 18, 14, 1),
            status_message_bytes(p, hello_world_text()),
        ]
    } else {
        seq![login_bytes(p, player.id), stats_bytes(p, player.stats)] + (if p.spec_number()
            >= 400 {
            seq![skills_bytes(p, player.skills)]
        } else {
            Seq::<Seq<u8>>::empty()
        }) + seq![
            equipped_item_bytes(p, InventorySlot::Helmet, 0x005c, 0),
            equipped_item_bytes(p, InventorySlot::Necklace, 0x007b, 0),
            equipped_item_bytes(p, InventorySlot::Bag, 0x013d, 0),
            equipped_item_bytes(p, InventorySlot::Armor, 0x007a, 0),
            equipped_item_bytes(p, InventorySlot::LeftHand, 0x085d, 0),
            equipped_item_bytes(p, InventorySlot::RightHand, 0x065a, 0),
            equipped_item_bytes(p, InventorySlot::Legs, 0x0079, 0),
            equipped_item_bytes(p, InventorySlot::Boots, 0x0378, 0),
            map_area_bytes(p, map, player, player.position, 18, 14, 3),
            update_character_bytes(p, player.id, CharacterUpdateType::LightLevel, 0),
            magic_effect_bytes(p, MagicEffect::Teleport, player.position),
            world_light_bytes(p, 6),
            status_message_bytes(p, hello_world_text()),
        ]
    }
}


/// The exact decode failures one frame can produce: none at all for an
/// unrecognized opcode or for an opcode whose handler cannot fail, and
/// for each dispatched opcode exactly the failures its handler's own
/// contract allows on this payload behind the 2-byte header.
pub open spec fn frame_error_allowed(p: Protocol, payload: Seq<u8>, e: DecodeError) -> bool {
    let n = payload.len() as int;
    let plen = position_len(p);
    match HeaderReceive::spec_from_opcode(le16(payload[0], payload[1])) {
        None => false,
        Some(header) => match header {
            HeaderReceive::UserList => false,
            HeaderReceive::PlayerInfo => false,
            HeaderReceive::Walk => match e {
                DecodeError::UnexpectedEnd => n < 3,
                DecodeError::InvalidDirection(b) => b == payload[2]
                    && Direction::spec_from_number(b) is None,
                _ => false,
            },
            HeaderReceive::AutoWalk => e == DecodeError::UnexpectedEnd && n < 2 + plen,
            HeaderReceive::LookAt => match e {
                DecodeError::UnexpectedEnd => n < 2 + plen,
                DecodeError::InvalidInventorySlot(_) => decode_position(
                    payload.subrange(2, 2 + plen),
                    p,
                ).spec_qualifier() == Err::<PositionQualifier, DecodeError>(e),
                _ => false,
            },
            HeaderReceive::Chat => e == DecodeError::UnexpectedEnd && (n < 4 || n < 4 + le16(
                payload[2],
                payload[3],
            )),
            HeaderReceive::ChangeDirection => match e {
                DecodeError::UnexpectedEnd => n < 3,
                DecodeError::InvalidDirection(b) => b == payload[2]
                    && Direction::spec_from_number(b) is None,
                _ => false,
            },
            HeaderReceive::Comment => false,
            HeaderReceive::Push => {
                let need = if p == Protocol::Tibia103 {
                    2 * plen + 3
                } else {
                    2 * plen + 4
                };
                let from = decode_position(payload.subrange(2, 2 + plen), p);
                let to = decode_position(payload.subrange(2 + plen + 3, 2 + 2 * plen + 3), p);
                match e {
                    DecodeError::UnexpectedEnd => n < 2 + need,
                    DecodeError::InvalidInventorySlot(_) => 2 + need <= n && (from.spec_qualifier()
                        == Err::<PositionQualifier, DecodeError>(e) || (from.spec_qualifier() is Ok
                        && to.spec_qualifier() == Err::<PositionQualifier, DecodeError>(e))),
                    _ => false,
                }
            },
            HeaderReceive::UseItem => e == DecodeError::UnexpectedEnd && n < 2 + plen + 5,
            HeaderReceive::CloseContainer => e == DecodeError::UnexpectedEnd && n < 3,
            HeaderReceive::RequestChangeData => false,
            HeaderReceive::SetData => {
                let need = if p.spec_number() <= 501 {
                    if p.spec_number() >= 400 {
                        683int
                    } else {
                        183int
                    }
                } else {
                    3int
                };
                e == DecodeError::UnexpectedEnd && n < 2 + need
            },
            HeaderReceive::SetText => false,
            HeaderReceive::HouseText => false,
            HeaderReceive::ChangeMode => match e {
                DecodeError::UnexpectedEnd => n < 4,
                DecodeError::InvalidFightMode(b) => b == payload[2]
                    && FightMode::spec_from_number(b) is None,
                DecodeError::InvalidFightStance(b) => b == payload[3]
                    && FightMode::spec_from_number(payload[2]) is Some
                    && FightStance::spec_from_number(b) is None,
                _ => false,
            },
            HeaderReceive::ExitBattle => false,
            HeaderReceive::SetTarget => e == DecodeError::UnexpectedEnd && n < 6,
            HeaderReceive::Echo => false,
            HeaderReceive::Logout => false,
        },
    }
}

impl Connection {
    /// Queues the whole post-login burst for this session's version.
    #[verifier::rlimit(60)]
    pub fn queue_login_info(&mut self, map: &WorldMap)
        requires
            map.wf(),
            old(self).player.outfit.wf(),
        ensures
            final(self).same_player_state(*old(self)),
            final(self).player == old(self).player,
            final(self).next_motd_number == old(self).next_motd_number,
            final(self).next_chat_type == old(self).next_chat_type,
            final(self).queued() == old(self).queued() + login_info_messages(
                old(self).protocol,
                *map,
                old(self).player,
            ),
    {
        let ghost msgs = login_info_messages(self.protocol, *map, self.player);
        let greeting = hello_world();
        if self.protocol == Protocol::Tibia103 {
            let m0 = self.prepare_login();
            assert(m0@.len() > 0);
            self.queue_message(m0);
            let m1 = self.prepare_equipped_item(InventorySlot::Bag, 0x013d, 0);
            assert(m1@.len() > 0);
            self.queue_message(m1);
            let m2 = self.prepare_equipped_item(InventorySlot::RightHand, 0x015a, 0);
            assert(m2@.len() > 0);
            self.queue_message(m2);
            let m3 = self.prepare_equipped_item(InventorySlot::LeftHand, 0x025a, 0);
            assert(m3@.len() > 0);
            self.queue_message(m3);
            let m4 = self.prepare_map(map, self.player.position, 18, 14, 1);
            assert(m4@.len() > 0);
            self.queue_message(m4);
            let m5 = self.prepare_status_message(&greeting);
            assert(m5@.len() > 0);
            self.queue_message(m5);
            assert(self.queued() =~= old(self).queued() + msgs);
        } else {
            let m0 = self.prepare_login();
            assert(m0@.len() > 0);
            self.queue_message(m0);
            let m1 = self.prepare_stats();
            assert(m1@.len() > 0);
            self.queue_message(m1);
            if self.protocol.number() >= 400 {
                let m2 = self.prepare_skills();
                assert(m2@.len() > 0);
                self.queue_message(m2);
            }
            let m3 = self.prepare_equipped_item(InventorySlot::Helmet, 0x005c, 0);
            assert(m3@.len() > 0);
            self.queue_message(m3);
            let m4 = self.prepare_equipped_item(InventorySlot::Necklace, 0x007b, 0);
            assert(m4@.len() > 0);
            self.queue_message(m4);
            let m5 = self.prepare_equipped_item(InventorySlot::Bag, 0x013d, 0);
            assert(m5@.len() > 0);
            self.queue_message(m5);
            let m6 = self.prepare_equipped_item(InventorySlot::Armor, 0x007a, 0);
            assert(m6@.len() > 0);
            self.queue_message(m6);
            let m7 = self.prepare_equipped_item(InventorySlot::LeftHand, 0x085d, 0);
            assert(m7@.len() > 0);
            self.queue_message(m7);
            let m8 = self.prepare_equipped_item(InventorySlot::RightHand, 0x065a, 0);
            assert(m8@.len() > 0);
            self.queue_message(m8);
            let m9 = self.prepare_equipped_item(InventorySlot::Legs, 0x0079, 0);
            assert(m9@.len() > 0);
            self.queue_message(m9);
            let m10 = self.prepare_equipped_item(InventorySlot::Boots, 0x0378, 0);
            assert(m10@.len() > 0);
            self.queue_message(m10);
            let m11 = self.prepare_map(map, self.player.position, 18, 14, 3);
            assert(m11@.len() > 0);
            self.queue_message(m11);
            let m12 = self.prepare_update_character(
                self.player.id,
                CharacterUpdateType::LightLevel,
                0,
            );
            assert(m12@.len() > 0);
            self.queue_message(m12);
            let m13 = self.prepare_magic_effect(MagicEffect::Teleport, self.player.position);
            assert(m13@.len() > 0);
            self.queue_message(m13);
            let m14 = self.prepare_world_light(6);
            assert(m14@.len() > 0);
            self.queue_message(m14);
            let m15 = self.prepare_status_message(&greeting);
            assert(m15@.len() > 0);
            self.queue_message(m15);
            assert(self.queued() =~= old(self).queued() + msgs);
        }
    }

    /// Handles one chat frame: a debug escape routes to the debug
    /// interpreter (when enabled), a `#` qualifier selects an alternate
    /// rendering — an unrecognized qualifier yields the generic no-op
    /// effect rather than an error — and anything else is a plain chat
    /// broadcast.
    pub fn receive_chat(&mut self, payload: &Vec<u8>, pos: &mut usize) -> (r: Result<
        FrameDisposition,
        DecodeError,
    >)
        requires
            *old(pos) <= payload@.len(),
            payload@.len() <= 0xffff,
            old(self).player.outfit.wf(),
        ensures
            final(self).protocol == old(self).protocol,
            final(self).player_id == old(self).player_id,
            final(self).debug_commands_enabled == old(self).debug_commands_enabled,
            final(self).player == old(self).player,
            match r {
                Ok(d) => ({
                    let length = le16(payload@[*old(pos) as int], payload@[*old(pos) + 1]);
                    let mstart = *old(pos) + 2;
                    let msg = payload@.subrange(mstart, mstart + length);
                    &&& *old(pos) + 2 + length <= payload@.len()
                    &&& *final(pos) == *old(pos) + 2 + length
                    &&& (if old(self).debug_commands_enabled && msg.len() >= 3 && msg[0] == 0x5c
                        && msg[1] == 0x64 && msg[2] == 0x20 {
                        let toks = crate::text::spec_tokenize(msg.skip(2));
                        if toks.len() == 0 {
                            &&& final(self).queued() == old(self).queued()
                            &&& final(self).next_motd_number == old(self).next_motd_number
                            &&& final(self).next_chat_type == old(self).next_chat_type
                            &&& d is Continue
                        } else {
                            let eff = crate::debug::debug_effect(
                                old(self).protocol,
                                old(self).player,
                                old(self).next_motd_number,
                                old(self).next_chat_type,
                                toks,
                            );
                            &&& final(self).next_motd_number == eff.next_motd_number
                            &&& final(self).next_chat_type == eff.next_chat_type
                            &&& (match eff.result {
                                crate::debug::DebugResultSpec::Done => final(self).queued() == old(
                                    self,
                                ).queued() + eff.queued && d is Continue,
                                crate::debug::DebugResultSpec::Panic(text) => final(self).queued()
                                    == old(self).queued() + eff.queued && (
                                d matches FrameDisposition::PanicRequested(t) && t@ == text),
                                crate::debug::DebugResultSpec::Failed(_) => final(self).queued()
                                    == (old(self).queued() + eff.queued).push(
                                    magic_effect_bytes(
                                        old(self).protocol,
                                        MagicEffect::Puff,
                                        old(self).player.position,
                                    ),
                                ) && d is Continue,
                            })
                        }
                    } else {
                        &&& final(self).next_motd_number == old(self).next_motd_number
                        &&& final(self).next_chat_type == old(self).next_chat_type
                        &&& d is Continue
                        &&& (if msg.len() >= 1 && msg[0] == 0x23 {
                            match ChatType::spec_from_qualifier(
                                if msg.len() >= 2 {
                                    Some(msg[1])
                                } else {
                                    None
                                },
                            ) {
                                Ok(ct) => final(self).queued() == old(self).queued().push(
                                    chat_bytes(
                                        old(self).protocol,
                                        ct,
                                        if msg.len() >= 3 {
                                            msg.skip(3)
                                        } else {
                                            Seq::<u8>::empty()
                                        },
                                        Some(old(self).player.name@),
                                        Some(old(self).player.position),
                                    ),
                                ),
                                Err(_) => final(self).queued() == old(self).queued().push(
                                    magic_effect_bytes(
                                        old(self).protocol,
                                        MagicEffect::Puff,
                                        old(self).player.position,
                                    ),
                                ),
                            }
                        } else {
                            final(self).queued() == old(self).queued().push(
                                chat_bytes(
                                    old(self).protocol,
                                    ChatType::Normal,
                                    msg,
                                    Some(old(self).player.name@),
                                    Some(old(self).player.position),
                                ),
                            )
                        })
                    })
                }),
                Err(e) => {
                    &&& e == DecodeError::UnexpectedEnd
                    &&& *final(self) == *old(self)
                    &&& *final(pos) == *old(pos)
                    &&& (payload@.len() < *old(pos) + 2 || payload@.len() < *old(pos) + 2 + le16(
                        payload@[*old(pos) as int],
                        payload@[*old(pos) + 1],
                    ))
                },
            },
    {
        if payload.len() - *pos < 2 {
            return Err(DecodeError::UnexpectedEnd);
        }
        let start = *pos;
        let length = match read_u16_le(payload, pos) {
            Ok(v) => v,
            Err(_) => {
                proof {
                    assert(false);
                }
                unreached()
            },
        };
        if payload.len() - *pos < length as usize {
            *pos = start;
            return Err(DecodeError::UnexpectedEnd);
        }
        let mstart = *pos;
        let msg = crate::text::subvec(payload, mstart, mstart + length as usize);
        *pos = mstart + length as usize;
        if self.debug_commands_enabled && msg.len() >= 3 && msg[0] == 0x5c && msg[1] == 0x64
            && msg[2] == 0x20 {
            let tail = crate::text::subvec(&msg, 2, msg.len());
            assert(tail@ == msg@.skip(2));
            let d = self.receive_debug_command(&tail);
            Ok(d)
        } else if msg.len() >= 1 && msg[0] == 0x23 {
            let qualifier = if msg.len() >= 2 {
                Some(msg[1])
            } else {
                None
            };
            match ChatType::try_from_qualifier(qualifier) {
                Ok(chat_type) => {
                    let tail = if msg.len() >= 3 {
                        crate::text::subvec(&msg, 3, msg.len())
                    } else {
                        Vec::new()
                    };
                    assert(tail@ == if msg@.len() >= 3 {
                        msg@.skip(3)
                    } else {
                        Seq::<u8>::empty()
                    });
                    let message = self.prepare_chat(
                        chat_type,
                        &tail,
                        Some(&self.player.name),
                        Some(self.player.position),
                    );
                    assert(message@.len() > 0);
                    self.queue_message(message);
                    Ok(FrameDisposition::Continue)
                },
                Err(_err) => {
                    let message = self.prepare_magic_effect(
                        MagicEffect::Puff,
                        self.player.position,
                    );
                    assert(message@.len() > 0);
                    self.queue_message(message);
                    Ok(FrameDisposition::Continue)
                },
            }
        } else {
            let message = self.prepare_chat(
                ChatType::Normal,
                &msg,
                Some(&self.player.name),
                Some(self.player.position),
            );
            assert(message@.len() > 0);
            self.queue_message(message);
            Ok(FrameDisposition::Continue)
        }
    }

    /// Dispatches one framed inbound message to its handler.  The first
    /// two payload bytes are the header opcode; an opcode this server
    /// does not recognize is never fatal and leaves the session
    /// untouched, and so a logout or an echo frame always succeeds.  A
    /// logout ends the session and tells the world; a walk tells the
    /// world too.  A handler's typed decode failure propagates with the
    /// session's queue unchanged, for the caller to decide, and only
    /// under the exact conditions of [`frame_error_allowed`]: on every
    /// other input the dispatch is owed to succeed.
    pub fn handle_frame(&mut self, map: &WorldMap, payload: &Vec<u8>) -> (r: Result<
        FrameOutcome,
        DecodeError,
    >)
        requires
            map.wf(),
            old(self).player.outfit.wf(),
            payload@.len() <= 0xffff,
        ensures
            final(self).protocol == old(self).protocol,
            final(self).player_id == old(self).player_id,
            final(self).debug_commands_enabled == old(self).debug_commands_enabled,
            final(self).player.outfit.wf(),
            final(self).player.id == old(self).player.id,
            final(self).player.name@ == old(self).player.name@,
            final(self).player.skills == old(self).player.skills,
            final(self).player.stats == old(self).player.stats,
            final(self).player.gender == old(self).player.gender,
            old(self).queued().is_prefix_of(final(self).queued()),
            match r {
                Ok(outcome) => {
                    &&& payload@.len() >= 2
                    &&& ({
                        let header = HeaderReceive::spec_from_opcode(
                            le16(payload@[0], payload@[1]),
                        );
                        &&& ((outcome.disposition is Logout) <==> header == Some(
                            HeaderReceive::Logout,
                        ))
                        &&& ((outcome.disposition is PanicRequested) ==> header == Some(
                            HeaderReceive::Chat,
                        ))
                        &&& outcome.world_messages@ == (if header == Some(HeaderReceive::Logout) {
                            seq![PlayerToWorldMessage::UnloadPlayer(old(self).player_id)]
                        } else if header == Some(HeaderReceive::Walk) {
                            seq![PlayerToWorldMessage::Walk(old(self).player.id)]
                        } else {
                            Seq::<PlayerToWorldMessage>::empty()
                        })
                        &&& (header is None ==> *final(self) == *old(self))
                        &&& (header != Some(HeaderReceive::Walk) ==> final(self).player.position
                            == old(self).player.position)
                        &&& (header != Some(HeaderReceive::SetData) ==> final(self).player.outfit
                            == old(self).player.outfit)
                    })
                },
                Err(e) => {
                    &&& final(self).queued() == old(self).queued()
                    &&& final(self).player.position == old(self).player.position
                    &&& final(self).player.outfit == old(self).player.outfit
                    &&& (if payload@.len() < 2 {
                        e == DecodeError::UnexpectedEnd
                    } else {
                        frame_error_allowed(old(self).protocol, payload@, e)
                    })
                },
            },
    {
        let mut pos: usize = 0;
        let opcode = match read_u16_le(payload, &mut pos) {
            Ok(v) => v,
            Err(e) => {
                return Err(e);
            },
        };
        let header = match HeaderReceive::try_from_opcode(opcode) {
            Some(h) => h,
            None => {
                // Unrecognized opcode: observed and skipped, never fatal.
                return Ok(
                    FrameOutcome {
                        disposition: FrameDisposition::Continue,
                        world_messages: Vec::new(),
                    },
                );
            },
        };
        let mut world_messages: Vec<PlayerToWorldMessage> = Vec::new();
        let disposition = match header {
            HeaderReceive::PlayerInfo => {
                match self.receive_player_info(payload, &mut pos) {
                    Ok(_) => FrameDisposition::Continue,
                    Err(e) => {
                        return Err(e);
                    },
                }
            },
            HeaderReceive::UserList => {
                match self.receive_user_list(payload, &mut pos) {
                    Ok(_) => FrameDisposition::Continue,
                    Err(e) => {
                        return Err(e);
                    },
                }
            },
            HeaderReceive::Walk => {
                match self.receive_walk(map, payload, &mut pos) {
                    Ok(ev) => {
                        world_messages.push(ev);
                        FrameDisposition::Continue
                    },
                    Err(e) => {
                        return Err(e);
                    },
                }
            },
            HeaderReceive::AutoWalk => {
                match self.receive_auto_walk(payload, &mut pos) {
                    Ok(_) => FrameDisposition::Continue,
                    Err(e) => {
                        return Err(e);
                    },
                }
            },
            HeaderReceive::LookAt => {
                match self.receive_look_at(payload, &mut pos) {
                    Ok(_) => FrameDisposition::Continue,
                    Err(e) => {
                        return Err(e);
                    },
                }
            },
            HeaderReceive::Chat => {
                match self.receive_chat(payload, &mut pos) {
                    Ok(d) => d,
                    Err(e) => {
                        return Err(e);
                    },
                }
            },
            HeaderReceive::ChangeDirection => {
                match self.receive_change_direction(payload, &mut pos) {
                    Ok(_) => FrameDisposition::Continue,
                    Err(e) => {
                        return Err(e);
                    },
                }
            },
            HeaderReceive::Comment => {
                match self.receive_comment(payload, &mut pos) {
                    Ok(_) => FrameDisposition::Continue,
                    Err(e) => {
                        return Err(e);
                    },
                }
            },
            HeaderReceive::Push => {
                match self.receive_push(payload, &mut pos) {
                    Ok(_) => FrameDisposition::Continue,
                    Err(e) => {
                        return Err(e);
                    },
                }
            },
            HeaderReceive::UseItem => {
                match self.receive_use_item(payload, &mut pos) {
                    Ok(_) => FrameDisposition::Continue,
                    Err(e) => {
                        return Err(e);
                    },
                }
            },
            HeaderReceive::CloseContainer => {
                match self.receive_close_container(payload, &mut pos) {
                    Ok(_) => FrameDisposition::Continue,
                    Err(e) => {
                        return Err(e);
                    },
                }
            },
            HeaderReceive::RequestChangeData => {
                match self.receive_change_data(payload, &mut pos) {
                    Ok(_) => FrameDisposition::Continue,
                    Err(e) => {
                        return Err(e);
                    },
                }
            },
            HeaderReceive::SetData => {
                match self.receive_set_data(payload, &mut pos) {
                    Ok(_) => FrameDisposition::Continue,
                    Err(e) => {
                        return Err(e);
                    },
                }
            },
            HeaderReceive::SetText => {
                match self.receive_set_text(payload, &mut pos) {
                    Ok(_) => FrameDisposition::Continue,
                    Err(e) => {
                        return Err(e);
                    },
                }
            },
            HeaderReceive::HouseText => {
                match self.receive_house_text(payload, &mut pos) {
                    Ok(_) => FrameDisposition::Continue,
                    Err(e) => {
                        return Err(e);
                    },
                }
            },
            HeaderReceive::ChangeMode => {
                match self.receive_change_mode(payload, &mut pos) {
                    Ok(_) => FrameDisposition::Continue,
                    Err(e) => {
                        return Err(e);
                    },
                }
            },
            HeaderReceive::ExitBattle => {
                match self.receive_exit_battle(payload, &mut pos) {
                    Ok(_) => FrameDisposition::Continue,
                    Err(e) => {
                        return Err(e);
                    },
                }
            },
            HeaderReceive::SetTarget => {
                match self.receive_set_target(payload, &mut pos) {
                    Ok(_) => FrameDisposition::Continue,
                    Err(e) => {
                        return Err(e);
                    },
                }
            },
            HeaderReceive::Echo => FrameDisposition::Continue,
            HeaderReceive::Logout => {
                world_messages.push(PlayerToWorldMessage::UnloadPlayer(self.player_id));
                FrameDisposition::Logout
            },
        };
        proof {
            assert(old(self).queued().is_prefix_of(self.queued()));
        }
        Ok(FrameOutcome { disposition, world_messages })
    }
}

} // verus!
