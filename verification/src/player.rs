//! The player record owned by one connection session.

use vstd::prelude::*;
use crate::character::{Gender, Outfit};
use crate::position::Position;

verus! {

/// Identity, position, skills, stats and looks of one player.  Owned
/// exclusively by its session once login completes; never shared.
pub struct Player {
    pub id: u32,
    pub name: Vec<u8>,
    pub position: Position,
    pub skills: Skills,
    pub stats: Stats,
    pub outfit: Outfit,
    pub gender: Gender,
}

#[derive(Debug, Copy, Clone, Eq, PartialEq, Structural)]
pub struct Skills {
    pub sword: u8,
    pub club: u8,
    pub axe: u8,
    pub distance: u8,
    pub shield: u8,
    pub fist: u8,
    pub fishing: u8,
    pub gauche: u8,
    pub missile: u8,
}

#[derive(Debug, Copy, Clone, Eq, PartialEq, Structural)]
pub struct Stats {
    pub health_points: u16,
    pub capacity: u16,
    pub intelligence: u8,
    pub strength: u8,
    pub dexterity: u8,
    pub experience_points: u32,
    pub experience_level: u8,
    pub mana_points: u16,
    pub magic_level: u8,
    pub ammunition: u16,
}

#[derive(Debug, Copy, Clone, Eq, PartialEq, Structural)]
pub enum InventorySlot {
    Helmet,
    Necklace,
    Bag,
    Armor,
    RightHand,
    LeftHand,
    Legs,
    Boots,
}

impl InventorySlot {
    /// The wire byte for this slot.
    pub open spec fn spec_number(self) -> u8 {
        match self {
            InventorySlot::Helmet => 1,
            InventorySlot::Necklace => 2,
            InventorySlot::Bag => 3,
            InventorySlot::Armor => 4,
            InventorySlot::RightHand => 5,
            InventorySlot::LeftHand => 6,
            InventorySlot::Legs => 7,
            InventorySlot::Boots => 8,
        }
    }

    #[verifier::when_used_as_spec(spec_number)]
    pub fn number(self) -> (n: u8)
        ensures
            n == self.spec_number(),
    {
        match self {
            InventorySlot::Helmet => 1,
            InventorySlot::Necklace => 2,
            InventorySlot::Bag => 3,
            InventorySlot::Armor => 4,
            InventorySlot::RightHand => 5,
            InventorySlot::LeftHand => 6,
            InventorySlot::Legs => 7,
            InventorySlot::Boots => 8,
        }
    }

    pub open spec fn spec_from_number(n: u8) -> Option<InventorySlot> {
        if n == 1 {
            Some(InventorySlot::Helmet)
        } else if n == 2 {
            Some(InventorySlot::Necklace)
        } else if n == 3 {
            Some(InventorySlot::Bag)
        } else if n == 4 {
            Some(InventorySlot::Armor)
        } else if n == 5 {
            Some(InventorySlot::RightHand)
        } else if n == 6 {
            Some(InventorySlot::LeftHand)
        } else if n == 7 {
            Some(InventorySlot::Legs)
        } else if n == 8 {
            Some(InventorySlot::Boots)
        } else {
            None
        }
    }

    pub fn try_from_number(n: u8) -> (r: Option<InventorySlot>)
        ensures
            r == Self::spec_from_number(n),
    {
        if n == 1 {
            Some(InventorySlot::Helmet)
        } else if n == 2 {
            Some(InventorySlot::Necklace)
        } else if n == 3 {
            Some(InventorySlot::Bag)
        } else if n == 4 {
            Some(InventorySlot::Armor)
        } else if n == 5 {
            Some(InventorySlot::RightHand)
        } else if n == 6 {
            Some(InventorySlot::LeftHand)
        } else if n == 7 {
            Some(InventorySlot::Legs)
        } else if n == 8 {
            Some(InventorySlot::Boots)
        } else {
            None
        }
    }
}

} // verus!
