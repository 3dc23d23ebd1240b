//! The player persistence stub: load-or-create a player record by name.
//!
//! There is no durable storage; every player is created fresh with the
//! default skills, stats and looks, at the map's respawn location.  The
//! caller allocates the numeric id and passes the respawn location in.

use vstd::prelude::*;
use crate::character::{Gender, Outfit};
use crate::player::{Player, Skills, Stats};
use crate::position::Position;
use crate::wire::write_bytes;

verus! {

/// The id the next player record is created with.  Names are not looked
/// up anywhere yet, so the fresh id is always granted.
pub fn get_player_id(_name: &Vec<u8>, next_id: u32) -> (r: Option<u32>)
    ensures
        r == Some(next_id),
{
    Some(next_id)
}

/// The skills every fresh player record starts with.
pub open spec fn default_skills() -> Skills {
    Skills {
        sword: 10,
        club: 10,
        axe: 10,
        distance: 10,
        shield: 10,
        fist: 10,
        fishing: 10,
        gauche: 10,
        missile: 10,
    }
}

/// The stats every fresh player record starts with.
pub open spec fn default_stats() -> Stats {
    Stats {
        health_points: 150,
        capacity: 400,
        intelligence: 10,
        strength: 10,
        dexterity: 10,
        experience_points: 0,
        experience_level: 1,
        mana_points: 55,
        magic_level: 0,
        ammunition: 1,
    }
}

/// What a freshly loaded player record holds.
pub open spec fn fresh_player(name: Seq<u8>, id: u32, respawn_location: Position, p: Player)
    -> bool {
    &&& p.id == id
    &&& p.name@ == name
    &&& p.position == respawn_location
    &&& p.skills == default_skills()
    &&& p.stats == default_stats()
    &&& p.outfit == (Outfit { head: 0, body: 0, legs: 0, shoes: 0, unknown_byte: 0 })
    &&& p.gender == Gender::Male
}

/// Loads the player record for a name: in the current scope every name
/// resolves to a fresh default record under the granted id.
pub fn load_player_by_name(name: &Vec<u8>, next_id: u32, respawn_location: Position) -> (r: Option<
    Player,
>)
    ensures
        match r {
            Some(p) => fresh_player(name@, next_id, respawn_location, p),
            None => false,
        },
{
    let mut player_name: Vec<u8> = Vec::new();
    write_bytes(&mut player_name, name);
    Some(
        Player {
            id: next_id,
            name: player_name,
            position: respawn_location,
            skills: Skills {
                sword: 10,
                club: 10,
                axe: 10,
                distance: 10,
                shield: 10,
                fist: 10,
                fishing: 10,
                gauche: 10,
                missile: 10,
            },
            stats: Stats {
                health_points: 150,
                capacity: 400,
                intelligence: 10,
                strength: 10,
                dexterity: 10,
                experience_points: 0,
                experience_level: 1,
                mana_points: 55,
                magic_level: 0,
                ammunition: 1,
            },
            outfit: Outfit { head: 0, body: 0, legs: 0, shoes: 0, unknown_byte: 0 },
            gender: Gender::Male,
        },
    )
}

/// Creates the player record for a new character; the same fresh record
/// load yields.
pub fn create_player(name: &Vec<u8>, next_id: u32, respawn_location: Position) -> (p: Player)
    ensures
        fresh_player(name@, next_id, respawn_location, p),
{
    match load_player_by_name(name, next_id, respawn_location) {
        Some(p) => p,
        None => {
            proof {
                assert(false);
            }
            unreached()
        },
    }
}

} // verus!
