//! Map coordinates and their "qualified" reinterpretation.
//!
//! A position is three coordinates (x, y, z).  The reserved x value
//! 0xffff reinterprets the tuple as a reference to an inventory slot or
//! to a slot inside an open container, never a real map coordinate.

use vstd::prelude::*;
use crate::character::Direction;
use crate::player::InventorySlot;
use crate::wire::DecodeError;

verus! {

#[derive(Debug, Copy, Clone, Eq, PartialEq, Structural)]
pub struct Position {
    pub x: u16,
    pub y: u16,
    pub z: u8,
}

#[derive(Debug, Copy, Clone, Eq, PartialEq, Structural)]
pub enum PositionQualifier {
    Plain,
    Container(u16, u8),
    Inventory(InventorySlot),
}

impl Position {
    pub fn new(x: u16, y: u16, z: u8) -> (r: Position)
        ensures
            r == (Position { x, y, z }),
    {
        Position { x, y, z }
    }

    /// How this value is to be read: a plain map coordinate unless x holds
    /// the reserved sentinel, in which case bit 6 of y decides between an
    /// inventory slot (clear) and a container slot plus index (set).
    pub open spec fn spec_qualifier(self) -> Result<PositionQualifier, DecodeError> {
        if self.x == 0xffff {
            if self.y & 0x40 == 0 {
                match InventorySlot::spec_from_number(self.y as u8) {
                    Some(slot) => Ok(PositionQualifier::Inventory(slot)),
                    None => Err(DecodeError::InvalidInventorySlot(self.y as u8)),
                }
            } else {
                Ok(PositionQualifier::Container((self.y - 0x40) as u16, self.z))
            }
        } else {
            Ok(PositionQualifier::Plain)
        }
    }

    pub fn get_qualifier(&self) -> (r: Result<PositionQualifier, DecodeError>)
        ensures
            r == self.spec_qualifier(),
    {
        if self.x == 0xffff {
            if self.y & 0x40 == 0 {
                match InventorySlot::try_from_number(self.y as u8) {
                    Some(slot) => Ok(PositionQualifier::Inventory(slot)),
                    None => Err(DecodeError::InvalidInventorySlot(self.y as u8)),
                }
            } else {
                let y = self.y;
                assert(y >= 0x40) by (bit_vector)
                    requires
                        y & 0x40 != 0,
                ;
                Ok(PositionQualifier::Container(y - 0x40, self.z))
            }
        } else {
            Ok(PositionQualifier::Plain)
        }
    }

    /// The coordinates shifted by a signed offset, with the source's
    /// wrapping semantics: x and y wrap modulo 2^16, z modulo 2^8.
    pub open spec fn spec_offset(self, dx: i16, dy: i16, dz: i8) -> Position {
        Position {
            x: ((self.x + (dx as u16)) % 0x10000) as u16,
            y: ((self.y + (dy as u16)) % 0x10000) as u16,
            z: ((self.z + (dz as u8)) % 0x100) as u8,
        }
    }

    pub fn offset(self, dx: i16, dy: i16, dz: i8) -> (r: Position)
        ensures
            r == self.spec_offset(dx, dy, dz),
    {
        Position {
            x: self.x.wrapping_add(dx as u16),
            y: self.y.wrapping_add(dy as u16),
            z: self.z.wrapping_add(dz as u8),
        }
    }

    /// One tile of movement in a compass direction (y grows southward).
    pub open spec fn spec_step(self, direction: Direction) -> Position {
        match direction {
            Direction::North => self.spec_offset(0i16, -1i16, 0i8),
            Direction::East => self.spec_offset(1i16, 0i16, 0i8),
            Direction::South => self.spec_offset(0i16, 1i16, 0i8),
            Direction::West => self.spec_offset(-1i16, 0i16, 0i8),
        }
    }

    pub fn step(self, direction: Direction) -> (r: Position)
        ensures
            r == self.spec_step(direction),
    {
        match direction {
            Direction::North => self.offset(0, -1, 0),
            Direction::East => self.offset(1, 0, 0),
            Direction::South => self.offset(0, 1, 0),
            Direction::West => self.offset(-1, 0, 0),
        }
    }
}

} // verus!
