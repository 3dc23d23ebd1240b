//! Message header opcodes, outbound and inbound.
//!
//! An outbound header is written as one or two bytes depending on the
//! protocol version (see [`crate::wire::write_header`]); the numeric
//! opcode itself is version-independent.

use vstd::prelude::*;
use crate::character::Direction;

verus! {

#[derive(Debug, Copy, Clone, Eq, PartialEq, Structural)]
pub enum HeaderSend {
    Unknown0x0000,
    Login,
    Error,
    DataWindow,
    Info,
    MessageOfTheDay,
    MapArea,
    MoveOneTileNorth,
    MoveOneTileEast,
    MoveOneTileSouth,
    MoveOneTileWest,
    Unknown0x000f,
    CloseContainer,
    OpenContainer,
    EquippedItem,
    RemoveEquippedItem,
    UpdateInventoryItem,
    UpdateObject,
    MagicEffect,
    ProjectileEffect,
    Text,
    HouseText,
    WorldLight,
    UpdateCharacter,
    Unknown0x0033,
    Unknown0x0034,
    Stats,
    Skills,
    GreenChat,
    Chat,
    UserList,
    UserInfo,
    StatusMessage,
    Echo,
}

impl HeaderSend {
    /// The numeric opcode sent on the wire.
    pub open spec fn spec_opcode(self) -> u16 {
        match self {
            HeaderSend::Unknown0x0000 => 0x0000,
            HeaderSend::Login => 0x0001,
            HeaderSend::Error => 0x0002,
            HeaderSend::DataWindow => 0x0003,
            HeaderSend::Info => 0x0004,
            HeaderSend::MessageOfTheDay => 0x0005,
            HeaderSend::MapArea => 0x000a,
            HeaderSend::MoveOneTileNorth => 0x000b,
            HeaderSend::MoveOneTileEast => 0x000c,
            HeaderSend::MoveOneTileSouth => 0x000d,
            HeaderSend::MoveOneTileWest => 0x000e,
            HeaderSend::Unknown0x000f => 0x000f,
            HeaderSend::CloseContainer => 0x0012,
            HeaderSend::OpenContainer => 0x0013,
            HeaderSend::EquippedItem => 0x0014,
            HeaderSend::RemoveEquippedItem => 0x0015,
            HeaderSend::UpdateInventoryItem => 0x0016,
            HeaderSend::UpdateObject => 0x0019,
            HeaderSend::MagicEffect => 0x001a,
            HeaderSend::ProjectileEffect => 0x001b,
            HeaderSend::Text => 0x0023,
            HeaderSend::HouseText => 0x0024,
            HeaderSend::WorldLight => 0x0028,
            HeaderSend::UpdateCharacter => 0x0032,
            HeaderSend::Unknown0x0033 => 0x0033,
            HeaderSend::Unknown0x0034 => 0x0034,
            HeaderSend::Stats => 0x003c,
            HeaderSend::Skills => 0x003d,
            HeaderSend::GreenChat => 0x0064,
            HeaderSend::Chat => 0x0065,
            HeaderSend::UserList => 0x0066,
            HeaderSend::UserInfo => 0x0067,
            HeaderSend::StatusMessage => 0x0068,
            HeaderSend::Echo => 0x00c8,
        }
    }

    #[verifier::when_used_as_spec(spec_opcode)]
    pub fn opcode(self) -> (n: u16)
        ensures
            n == self.spec_opcode(),
    {
        match self {
            HeaderSend::Unknown0x0000 => 0x0000,
            HeaderSend::Login => 0x0001,
            HeaderSend::Error => 0x0002,
            HeaderSend::DataWindow => 0x0003,
            HeaderSend::Info => 0x0004,
            HeaderSend::MessageOfTheDay => 0x0005,
            HeaderSend::MapArea => 0x000a,
            HeaderSend::MoveOneTileNorth => 0x000b,
            HeaderSend::MoveOneTileEast => 0x000c,
            HeaderSend::MoveOneTileSouth => 0x000d,
            HeaderSend::MoveOneTileWest => 0x000e,
            HeaderSend::Unknown0x000f => 0x000f,
            HeaderSend::CloseContainer => 0x0012,
            HeaderSend::OpenContainer => 0x0013,
            HeaderSend::EquippedItem => 0x0014,
            HeaderSend::RemoveEquippedItem => 0x0015,
            HeaderSend::UpdateInventoryItem => 0x0016,
            HeaderSend::UpdateObject => 0x0019,
            HeaderSend::MagicEffect => 0x001a,
            HeaderSend::ProjectileEffect => 0x001b,
            HeaderSend::Text => 0x0023,
            HeaderSend::HouseText => 0x0024,
            HeaderSend::WorldLight => 0x0028,
            HeaderSend::UpdateCharacter => 0x0032,
            HeaderSend::Unknown0x0033 => 0x0033,
            HeaderSend::Unknown0x0034 => 0x0034,
            HeaderSend::Stats => 0x003c,
            HeaderSend::Skills => 0x003d,
            HeaderSend::GreenChat => 0x0064,
            HeaderSend::Chat => 0x0065,
            HeaderSend::UserList => 0x0066,
            HeaderSend::UserInfo => 0x0067,
            HeaderSend::StatusMessage => 0x0068,
            HeaderSend::Echo => 0x00c8,
        }
    }
}

impl From<Direction> for HeaderSend {
    /// The move-one-tile header that announces a step in this direction.
    fn from(direction: Direction) -> (r: HeaderSend) {
        match direction {
            Direction::North => HeaderSend::MoveOneTileNorth,
            Direction::West => HeaderSend::MoveOneTileWest,
            Direction::South => HeaderSend::MoveOneTileSouth,
            Direction::East => HeaderSend::MoveOneTileEast,
        }
    }
}

impl vstd::std_specs::convert::FromSpecImpl<Direction> for HeaderSend {
    open spec fn obeys_from_spec() -> bool {
        true
    }

    open spec fn from_spec(direction: Direction) -> HeaderSend {
        match direction {
            Direction::North => HeaderSend::MoveOneTileNorth,
            Direction::West => HeaderSend::MoveOneTileWest,
            Direction::South => HeaderSend::MoveOneTileSouth,
            Direction::East => HeaderSend::MoveOneTileEast,
        }
    }
}

#[derive(Debug, Copy, Clone, Eq, PartialEq, Structural)]
pub enum AuxiliaryHeaderSend {
    ChangeDirection,
    Character,
}

impl AuxiliaryHeaderSend {
    pub open spec fn spec_opcode(self) -> u8 {
        match self {
            AuxiliaryHeaderSend::ChangeDirection => 0xfa,
            AuxiliaryHeaderSend::Character => 0xfb,
        }
    }

    #[verifier::when_used_as_spec(spec_opcode)]
    pub fn opcode(self) -> (n: u8)
        ensures
            n == self.spec_opcode(),
    {
        match self {
            AuxiliaryHeaderSend::ChangeDirection => 0xfa,
            AuxiliaryHeaderSend::Character => 0xfb,
        }
    }
}

#[derive(Debug, Copy, Clone, Eq, PartialEq, Structural)]
pub enum HeaderReceive {
    UserList,
    PlayerInfo,
    Walk,
    AutoWalk,
    LookAt,
    Chat,
    ChangeDirection,
    Comment,
    Push,
    UseItem,
    CloseContainer,
    RequestChangeData,
    SetData,
    SetText,
    HouseText,
    ChangeMode,
    ExitBattle,
    SetTarget,
    Echo,
    Logout,
}

impl HeaderReceive {
    /// The inbound opcode this header is read from, or `None` for an
    /// opcode this server does not recognize.
    pub open spec fn spec_from_opcode(n: u16) -> Option<HeaderReceive> {
        if n == 0x0003 {
            Some(HeaderReceive::UserList)
        } else if n == 0x0004 {
            Some(HeaderReceive::PlayerInfo)
        } else if n == 0x0005 {
            Some(HeaderReceive::Walk)
        } else if n == 0x0006 {
            Some(HeaderReceive::AutoWalk)
        } else if n == 0x0007 {
            Some(HeaderReceive::LookAt)
        } else if n == 0x0009 {
            Some(HeaderReceive::Chat)
        } else if n == 0x000a {
            Some(HeaderReceive::ChangeDirection)
        } else if n == 0x000b {
            Some(HeaderReceive::Comment)
        } else if n == 0x0014 {
            Some(HeaderReceive::Push)
        } else if n == 0x001e {
            Some(HeaderReceive::UseItem)
        } else if n == 0x001f {
            Some(HeaderReceive::CloseContainer)
        } else if n == 0x0020 {
            Some(HeaderReceive::RequestChangeData)
        } else if n == 0x0021 {
            Some(HeaderReceive::SetData)
        } else if n == 0x0023 {
            Some(HeaderReceive::SetText)
        } else if n == 0x0024 {
            Some(HeaderReceive::HouseText)
        } else if n == 0x0032 {
            Some(HeaderReceive::ChangeMode)
        } else if n == 0x0033 {
            Some(HeaderReceive::ExitBattle)
        } else if n == 0x0034 {
            Some(HeaderReceive::SetTarget)
        } else if n == 0x00c8 {
            Some(HeaderReceive::Echo)
        } else if n == 0x00ff {
            Some(HeaderReceive::Logout)
        } else {
            None
        }
    }

    pub fn try_from_opcode(n: u16) -> (r: Option<HeaderReceive>)
        ensures
            r == Self::spec_from_opcode(n),
    {
        if n == 0x0003 {
            Some(HeaderReceive::UserList)
        } else if n == 0x0004 {
            Some(HeaderReceive::PlayerInfo)
        } else if n == 0x0005 {
            Some(HeaderReceive::Walk)
        } else if n == 0x0006 {
            Some(HeaderReceive::AutoWalk)
        } else if n == 0x0007 {
            Some(HeaderReceive::LookAt)
        } else if n == 0x0009 {
            Some(HeaderReceive::Chat)
        } else if n == 0x000a {
            Some(HeaderReceive::ChangeDirection)
        } else if n == 0x000b {
            Some(HeaderReceive::Comment)
        } else if n == 0x0014 {
            Some(HeaderReceive::Push)
        } else if n == 0x001e {
            Some(HeaderReceive::UseItem)
        } else if n == 0x001f {
            Some(HeaderReceive::CloseContainer)
        } else if n == 0x0020 {
            Some(HeaderReceive::RequestChangeData)
        } else if n == 0x0021 {
            Some(HeaderReceive::SetData)
        } else if n == 0x0023 {
            Some(HeaderReceive::SetText)
        } else if n == 0x0024 {
            Some(HeaderReceive::HouseText)
        } else if n == 0x0032 {
            Some(HeaderReceive::ChangeMode)
        } else if n == 0x0033 {
            Some(HeaderReceive::ExitBattle)
        } else if n == 0x0034 {
            Some(HeaderReceive::SetTarget)
        } else if n == 0x00c8 {
            Some(HeaderReceive::Echo)
        } else if n == 0x00ff {
            Some(HeaderReceive::Logout)
        } else {
            None
        }
    }
}

} // verus!
