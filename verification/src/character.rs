//! Character-level values carried by the protocol: gender, facing
//! direction, fight settings, outfit colors and species.

use vstd::prelude::*;

verus! {

#[derive(Debug, Copy, Clone, Eq, PartialEq, Structural)]
pub enum Gender {
    Female,
    Male,
}

#[derive(Debug, Copy, Clone, Eq, PartialEq, Structural)]
pub enum FightMode {
    Offensive,
    Normal,
    Defensive,
}

impl FightMode {
    pub open spec fn spec_from_number(n: u8) -> Option<FightMode> {
        if n == 1 {
            Some(FightMode::Offensive)
        } else if n == 2 {
            Some(FightMode::Normal)
        } else if n == 3 {
            Some(FightMode::Defensive)
        } else {
            None
        }
    }

    pub fn try_from_number(n: u8) -> (r: Option<FightMode>)
        ensures
            r == Self::spec_from_number(n),
    {
        if n == 1 {
            Some(FightMode::Offensive)
        } else if n == 2 {
            Some(FightMode::Normal)
        } else if n == 3 {
            Some(FightMode::Defensive)
        } else {
            None
        }
    }
}

#[derive(Debug, Copy, Clone, Eq, PartialEq, Structural)]
pub enum FightStance {
    StandStill,
    Chase,
    KeepDistance,
}

impl FightStance {
    pub open spec fn spec_from_number(n: u8) -> Option<FightStance> {
        if n == 0 {
            Some(FightStance::StandStill)
        } else if n == 1 {
            Some(FightStance::Chase)
        } else if n == 2 {
            Some(FightStance::KeepDistance)
        } else {
            None
        }
    }

    pub fn try_from_number(n: u8) -> (r: Option<FightStance>)
        ensures
            r == Self::spec_from_number(n),
    {
        if n == 0 {
            Some(FightStance::StandStill)
        } else if n == 1 {
            Some(FightStance::Chase)
        } else if n == 2 {
            Some(FightStance::KeepDistance)
        } else {
            None
        }
    }
}

#[derive(Debug, Copy, Clone, Eq, PartialEq, Structural)]
pub enum Direction {
    North,
    East,
    South,
    West,
}

impl Direction {
    /// The wire byte for this direction.
    pub open spec fn spec_number(self) -> u8 {
        match self {
            Direction::North => 0,
            Direction::East => 1,
            Direction::South => 2,
            Direction::West => 3,
        }
    }

    #[verifier::when_used_as_spec(spec_number)]
    pub fn number(self) -> (n: u8)
        ensures
            n == self.spec_number(),
    {
        match self {
            Direction::North => 0,
            Direction::East => 1,
            Direction::South => 2,
            Direction::West => 3,
        }
    }

    pub open spec fn spec_from_number(n: u8) -> Option<Direction> {
        if n == 0 {
            Some(Direction::North)
        } else if n == 1 {
            Some(Direction::East)
        } else if n == 2 {
            Some(Direction::South)
        } else if n == 3 {
            Some(Direction::West)
        } else {
            None
        }
    }

    pub fn try_from_number(n: u8) -> (r: Option<Direction>)
        ensures
            r == Self::spec_from_number(n),
    {
        if n == 0 {
            Some(Direction::North)
        } else if n == 1 {
            Some(Direction::East)
        } else if n == 2 {
            Some(Direction::South)
        } else if n == 3 {
            Some(Direction::West)
        } else {
            None
        }
    }
}

#[derive(Debug, Copy, Clone, Eq, PartialEq, Structural)]
pub enum HealthStatus {
    Dead,
    NearlyDead,
    Critical,
    HeavilyWounded,
    LightlyWounded,
    BarelyWounded,
    Healthy,
}

impl HealthStatus {
    pub open spec fn spec_number(self) -> u8 {
        match self {
            HealthStatus::Dead => 0,
            HealthStatus::NearlyDead => 1,
            HealthStatus::Critical => 2,
            HealthStatus::HeavilyWounded => 3,
            HealthStatus::LightlyWounded => 4,
            HealthStatus::BarelyWounded => 5,
            HealthStatus::Healthy => 6,
        }
    }

    #[verifier::when_used_as_spec(spec_number)]
    pub fn number(self) -> (n: u8)
        ensures
            n == self.spec_number(),
    {
        match self {
            HealthStatus::Dead => 0,
            HealthStatus::NearlyDead => 1,
            HealthStatus::Critical => 2,
            HealthStatus::HeavilyWounded => 3,
            HealthStatus::LightlyWounded => 4,
            HealthStatus::BarelyWounded => 5,
            HealthStatus::Healthy => 6,
        }
    }
}

#[derive(Debug, Copy, Clone, Eq, PartialEq, Structural)]
pub enum CharacterUpdateType {
    HealthStatus,
    LightLevel,
    Outfit,
}

impl CharacterUpdateType {
    pub open spec fn spec_number(self) -> u8 {
        match self {
            CharacterUpdateType::HealthStatus => 1,
            CharacterUpdateType::LightLevel => 2,
            CharacterUpdateType::Outfit => 3,
        }
    }

    #[verifier::when_used_as_spec(spec_number)]
    pub fn number(self) -> (n: u8)
        ensures
            n == self.spec_number(),
    {
        match self {
            CharacterUpdateType::HealthStatus => 1,
            CharacterUpdateType::LightLevel => 2,
            CharacterUpdateType::Outfit => 3,
        }
    }
}

/// Four 4-bit color indices (head, body, legs, shoes) plus one opaque
/// byte.  The opaque byte is round-tripped verbatim; its meaning is
/// unknown and it is never interpreted.
#[derive(Debug, Eq, PartialEq, Copy, Clone, Structural)]
pub struct Outfit {
    pub head: u8,
    pub body: u8,
    pub legs: u8,
    pub shoes: u8,
    pub unknown_byte: u8,
}

impl Outfit {
    /// Every color index fits in 4 bits, so two of them pack into a byte.
    pub open spec fn wf(self) -> bool {
        self.head < 16 && self.body < 16 && self.legs < 16 && self.shoes < 16
    }

    pub fn new(head: u8, body: u8, legs: u8, shoes: u8) -> (r: Outfit)
        requires
            head < 16,
            body < 16,
            legs < 16,
            shoes < 16,
        ensures
            r == (Outfit { head, body, legs, shoes, unknown_byte: 0 }),
            r.wf(),
    {
        Outfit { head, body, legs, shoes, unknown_byte: 0 }
    }

    pub fn new_with_unknown_byte(head: u8, body: u8, legs: u8, shoes: u8, unknown_byte: u8) -> (r:
        Outfit)
        requires
            head < 16,
            body < 16,
            legs < 16,
            shoes < 16,
        ensures
            r == (Outfit { head, body, legs, shoes, unknown_byte }),
            r.wf(),
    {
        Outfit { head, body, legs, shoes, unknown_byte }
    }
}


/// The species/look id ("outfit type") a character is drawn as.
#[derive(Debug, Copy, Clone, Eq, PartialEq, Structural)]
pub enum CharacterOutfit {
    Human,
    Orc,
    Troll,
    Rat,
    Cyclops,
    Snake,
    Spider,
    Minotaur,
    Rotworm,
    Wolf,
    Bear,
    Beholder,
    Ghoul,
    Deer,
    Dog,
    Skeleton,
    Dragon,
    Demon,
    PoisonSpider,
    DemonSkeleton,
    GiantSpider,
    OrcShaman,
    OrcWarrior,
    OrcBerserker,
    Necromancer,
    Warlock,
    Hunter,
    SantaClaus,
    BlackSheep,
    Sheep,
    Slime,
    MinotaurMage,
    MinotaurArcher,
    MinotaurGuard,
    DragonLord,
    FireDevil,
    Lion,
    PolarBear,
    Scorpion,
    Wasp,
    Bug,
    BlackKnight,
    WildWarrior,
    Phantom,
    FireElemental,
    OrcSpearman,
    OrcLeader,
    WinterWolf,
    FrostTroll,
    Witch,
    Behemoth,
    PirateCaptain,
    Monk,
    Priestess,
    OrcWarlord,
    Pig,
    Goblin,
    Elf,
    ElfArcanist,
    ElfScout,
    Mummy,
    Pirate,
    StoneGolem,
    Vampire,
    Dwarf,
    DwarfGuard,
    DwarfSoldier,
    Hero,
    MinotaurMage2,
    GameMaster,
}

impl CharacterOutfit {
    /// The wire byte for this species.
    pub open spec fn spec_number(self) -> u8 {
        match self {
            CharacterOutfit::Human => 1,
            CharacterOutfit::Orc => 5,
            CharacterOutfit::Troll => 15,
            CharacterOutfit::Rat => 21,
            CharacterOutfit::Cyclops => 22,
            CharacterOutfit::Snake => 28,
            CharacterOutfit::Spider => 30,
            CharacterOutfit::Minotaur => 25,
            CharacterOutfit::Rotworm => 26,
            CharacterOutfit::Wolf => 27,
            CharacterOutfit::Bear => 16,
            CharacterOutfit::Beholder => 17,
            CharacterOutfit::Ghoul => 18,
            CharacterOutfit::Deer => 31,
            CharacterOutfit::Dog => 32,
            CharacterOutfit::Skeleton => 33,
            CharacterOutfit::Dragon => 34,
            CharacterOutfit::Demon => 35,
            CharacterOutfit::PoisonSpider => 36,
            CharacterOutfit::DemonSkeleton => 37,
            CharacterOutfit::GiantSpider => 38,
            CharacterOutfit::OrcShaman => 6,
            CharacterOutfit::OrcWarrior => 7,
            CharacterOutfit::OrcBerserker => 8,
            CharacterOutfit::Necromancer => 9,
            CharacterOutfit::Warlock => 10,
            CharacterOutfit::Hunter => 11,
            CharacterOutfit::SantaClaus => 12,
            CharacterOutfit::BlackSheep => 13,
            CharacterOutfit::Sheep => 14,
            CharacterOutfit::Slime => 19,
            CharacterOutfit::MinotaurMage => 23,
            CharacterOutfit::MinotaurArcher => 24,
            CharacterOutfit::MinotaurGuard => 29,
            CharacterOutfit::DragonLord => 39,
            CharacterOutfit::FireDevil => 40,
            CharacterOutfit::Lion => 41,
            CharacterOutfit::PolarBear => 42,
            CharacterOutfit::Scorpion => 43,
            CharacterOutfit::Wasp => 44,
            CharacterOutfit::Bug => 45,
            CharacterOutfit::BlackKnight => 46,
            CharacterOutfit::WildWarrior => 47,
            CharacterOutfit::Phantom => 48,
            CharacterOutfit::FireElemental => 49,
            CharacterOutfit::OrcSpearman => 50,
            CharacterOutfit::OrcLeader => 51,
            CharacterOutfit::WinterWolf => 52,
            CharacterOutfit::FrostTroll => 53,
            CharacterOutfit::Witch => 54,
            CharacterOutfit::Behemoth => 55,
            CharacterOutfit::PirateCaptain => 56,
            CharacterOutfit::Monk => 57,
            CharacterOutfit::Priestess => 58,
            CharacterOutfit::OrcWarlord => 59,
            CharacterOutfit::Pig => 60,
            CharacterOutfit::Goblin => 61,
            CharacterOutfit::Elf => 62,
            CharacterOutfit::ElfArcanist => 63,
            CharacterOutfit::ElfScout => 64,
            CharacterOutfit::Mummy => 65,
            CharacterOutfit::Pirate => 66,
            CharacterOutfit::StoneGolem => 67,
            CharacterOutfit::Vampire => 68,
            CharacterOutfit::Dwarf => 69,
            CharacterOutfit::DwarfGuard => 70,
            CharacterOutfit::DwarfSoldier => 71,
            CharacterOutfit::Hero => 73,
            CharacterOutfit::MinotaurMage2 => 74,
            CharacterOutfit::GameMaster => 75,
        }
    }

    #[verifier::when_used_as_spec(spec_number)]
    pub fn number(self) -> (n: u8)
        ensures
            n == self.spec_number(),
    {
        match self {
            CharacterOutfit::Human => 1,
            CharacterOutfit::Orc => 5,
            CharacterOutfit::Troll => 15,
            CharacterOutfit::Rat => 21,
            CharacterOutfit::Cyclops => 22,
            CharacterOutfit::Snake => 28,
            CharacterOutfit::Spider => 30,
            CharacterOutfit::Minotaur => 25,
            CharacterOutfit::Rotworm => 26,
            CharacterOutfit::Wolf => 27,
            CharacterOutfit::Bear => 16,
            CharacterOutfit::Beholder => 17,
            CharacterOutfit::Ghoul => 18,
            CharacterOutfit::Deer => 31,
            CharacterOutfit::Dog => 32,
            CharacterOutfit::Skeleton => 33,
            CharacterOutfit::Dragon => 34,
            CharacterOutfit::Demon => 35,
            CharacterOutfit::PoisonSpider => 36,
            CharacterOutfit::DemonSkeleton => 37,
            CharacterOutfit::GiantSpider => 38,
            CharacterOutfit::OrcShaman => 6,
            CharacterOutfit::OrcWarrior => 7,
            CharacterOutfit::OrcBerserker => 8,
            CharacterOutfit::Necromancer => 9,
            CharacterOutfit::Warlock => 10,
            CharacterOutfit::Hunter => 11,
            CharacterOutfit::SantaClaus => 12,
            CharacterOutfit::BlackSheep => 13,
            CharacterOutfit::Sheep => 14,
            CharacterOutfit::Slime => 19,
            CharacterOutfit::MinotaurMage => 23,
            CharacterOutfit::MinotaurArcher => 24,
            CharacterOutfit::MinotaurGuard => 29,
            CharacterOutfit::DragonLord => 39,
            CharacterOutfit::FireDevil => 40,
            CharacterOutfit::Lion => 41,
            CharacterOutfit::PolarBear => 42,
            CharacterOutfit::Scorpion => 43,
            CharacterOutfit::Wasp => 44,
            CharacterOutfit::Bug => 45,
            CharacterOutfit::BlackKnight => 46,
            CharacterOutfit::WildWarrior => 47,
            CharacterOutfit::Phantom => 48,
            CharacterOutfit::FireElemental => 49,
            CharacterOutfit::OrcSpearman => 50,
            CharacterOutfit::OrcLeader => 51,
            CharacterOutfit::WinterWolf => 52,
            CharacterOutfit::FrostTroll => 53,
            CharacterOutfit::Witch => 54,
            CharacterOutfit::Behemoth => 55,
            CharacterOutfit::PirateCaptain => 56,
            CharacterOutfit::Monk => 57,
            CharacterOutfit::Priestess => 58,
            CharacterOutfit::OrcWarlord => 59,
            CharacterOutfit::Pig => 60,
            CharacterOutfit::Goblin => 61,
            CharacterOutfit::Elf => 62,
            CharacterOutfit::ElfArcanist => 63,
            CharacterOutfit::ElfScout => 64,
            CharacterOutfit::Mummy => 65,
            CharacterOutfit::Pirate => 66,
            CharacterOutfit::StoneGolem => 67,
            CharacterOutfit::Vampire => 68,
            CharacterOutfit::Dwarf => 69,
            CharacterOutfit::DwarfGuard => 70,
            CharacterOutfit::DwarfSoldier => 71,
            CharacterOutfit::Hero => 73,
            CharacterOutfit::MinotaurMage2 => 74,
            CharacterOutfit::GameMaster => 75,
        }
    }

    pub open spec fn spec_from_number(n: u8) -> Option<CharacterOutfit> {
        if n == 1 {
            Some(CharacterOutfit::Human)
        } else if n == 5 {
            Some(CharacterOutfit::Orc)
        } else if n == 6 {
            Some(CharacterOutfit::OrcShaman)
        } else if n == 7 {
            Some(CharacterOutfit::OrcWarrior)
        } else if n == 8 {
            Some(CharacterOutfit::OrcBerserker)
        } else if n == 9 {
            Some(CharacterOutfit::Necromancer)
        } else if n == 10 {
            Some(CharacterOutfit::Warlock)
        } else if n == 11 {
            Some(CharacterOutfit::Hunter)
        } else if n == 12 {
            Some(CharacterOutfit::SantaClaus)
        } else if n == 13 {
            Some(CharacterOutfit::BlackSheep)
        } else if n == 14 {
            Some(CharacterOutfit::Sheep)
        } else if n == 15 {
            Some(CharacterOutfit::Troll)
        } else if n == 16 {
            Some(CharacterOutfit::Bear)
        } else if n == 17 {
            Some(CharacterOutfit::Beholder)
        } else if n == 18 {
            Some(CharacterOutfit::Ghoul)
        } else if n == 19 {
            Some(CharacterOutfit::Slime)
        } else if n == 21 {
            Some(CharacterOutfit::Rat)
        } else if n == 22 {
            Some(CharacterOutfit::Cyclops)
        } else if n == 23 {
            Some(CharacterOutfit::MinotaurMage)
        } else if n == 24 {
            Some(CharacterOutfit::MinotaurArcher)
        } else if n == 25 {
            Some(CharacterOutfit::Minotaur)
        } else if n == 26 {
            Some(CharacterOutfit::Rotworm)
        } else if n == 27 {
            Some(CharacterOutfit::Wolf)
        } else if n == 28 {
            Some(CharacterOutfit::Snake)
        } else if n == 29 {
            Some(CharacterOutfit::MinotaurGuard)
        } else if n == 30 {
            Some(CharacterOutfit::Spider)
        } else if n == 31 {
            Some(CharacterOutfit::Deer)
        } else if n == 32 {
            Some(CharacterOutfit::Dog)
        } else if n == 33 {
            Some(CharacterOutfit::Skeleton)
        } else if n == 34 {
            Some(CharacterOutfit::Dragon)
        } else if n == 35 {
            Some(CharacterOutfit::Demon)
        } else if n == 36 {
            Some(CharacterOutfit::PoisonSpider)
        } else if n == 37 {
            Some(CharacterOutfit::DemonSkeleton)
        } else if n == 38 {
            Some(CharacterOutfit::GiantSpider)
        } else if n == 39 {
            Some(CharacterOutfit::DragonLord)
        } else if n == 40 {
            Some(CharacterOutfit::FireDevil)
        } else if n == 41 {
            Some(CharacterOutfit::Lion)
        } else if n == 42 {
            Some(CharacterOutfit::PolarBear)
        } else if n == 43 {
            Some(CharacterOutfit::Scorpion)
        } else if n == 44 {
            Some(CharacterOutfit::Wasp)
        } else if n == 45 {
            Some(CharacterOutfit::Bug)
        } else if n == 46 {
            Some(CharacterOutfit::BlackKnight)
        } else if n == 47 {
            Some(CharacterOutfit::WildWarrior)
        } else if n == 48 {
            Some(CharacterOutfit::Phantom)
        } else if n == 49 {
            Some(CharacterOutfit::FireElemental)
        } else if n == 50 {
            Some(CharacterOutfit::OrcSpearman)
        } else if n == 51 {
            Some(CharacterOutfit::OrcLeader)
        } else if n == 52 {
            Some(CharacterOutfit::WinterWolf)
        } else if n == 53 {
            Some(CharacterOutfit::FrostTroll)
        } else if n == 54 {
            Some(CharacterOutfit::Witch)
        } else if n == 55 {
            Some(CharacterOutfit::Behemoth)
        } else if n == 56 {
            Some(CharacterOutfit::PirateCaptain)
        } else if n == 57 {
            Some(CharacterOutfit::Monk)
        } else if n == 58 {
            Some(CharacterOutfit::Priestess)
        } else if n == 59 {
            Some(CharacterOutfit::OrcWarlord)
        } else if n == 60 {
            Some(CharacterOutfit::Pig)
        } else if n == 61 {
            Some(CharacterOutfit::Goblin)
        } else if n == 62 {
            Some(CharacterOutfit::Elf)
        } else if n == 63 {
            Some(CharacterOutfit::ElfArcanist)
        } else if n == 64 {
            Some(CharacterOutfit::ElfScout)
        } else if n == 65 {
            Some(CharacterOutfit::Mummy)
        } else if n == 66 {
            Some(CharacterOutfit::Pirate)
        } else if n == 67 {
            Some(CharacterOutfit::StoneGolem)
        } else if n == 68 {
            Some(CharacterOutfit::Vampire)
        } else if n == 69 {
            Some(CharacterOutfit::Dwarf)
        } else if n == 70 {
            Some(CharacterOutfit::DwarfGuard)
        } else if n == 71 {
            Some(CharacterOutfit::DwarfSoldier)
        } else if n == 73 {
            Some(CharacterOutfit::Hero)
        } else if n == 74 {
            Some(CharacterOutfit::MinotaurMage2)
        } else if n == 75 {
            Some(CharacterOutfit::GameMaster)
        } else {
            None
        }
    }

    pub fn try_from_number(n: u8) -> (r: Option<CharacterOutfit>)
        ensures
            r == Self::spec_from_number(n),
    {
        if n == 1 {
            Some(CharacterOutfit::Human)
        } else if n == 5 {
            Some(CharacterOutfit::Orc)
        } else if n == 6 {
            Some(CharacterOutfit::OrcShaman)
        } else if n == 7 {
            Some(CharacterOutfit::OrcWarrior)
        } else if n == 8 {
            Some(CharacterOutfit::OrcBerserker)
        } else if n == 9 {
            Some(CharacterOutfit::Necromancer)
        } else if n == 10 {
            Some(CharacterOutfit::Warlock)
        } else if n == 11 {
            Some(CharacterOutfit::Hunter)
        } else if n == 12 {
            Some(CharacterOutfit::SantaClaus)
        } else if n == 13 {
            Some(CharacterOutfit::BlackSheep)
        } else if n == 14 {
            Some(CharacterOutfit::Sheep)
        } else if n == 15 {
            Some(CharacterOutfit::Troll)
        } else if n == 16 {
            Some(CharacterOutfit::Bear)
        } else if n == 17 {
            Some(CharacterOutfit::Beholder)
        } else if n == 18 {
            Some(CharacterOutfit::Ghoul)
        } else if n == 19 {
            Some(CharacterOutfit::Slime)
        } else if n == 21 {
            Some(CharacterOutfit::Rat)
        } else if n == 22 {
            Some(CharacterOutfit::Cyclops)
        } else if n == 23 {
            Some(CharacterOutfit::MinotaurMage)
        } else if n == 24 {
            Some(CharacterOutfit::MinotaurArcher)
        } else if n == 25 {
            Some(CharacterOutfit::Minotaur)
        } else if n == 26 {
            Some(CharacterOutfit::Rotworm)
        } else if n == 27 {
            Some(CharacterOutfit::Wolf)
        } else if n == 28 {
            Some(CharacterOutfit::Snake)
        } else if n == 29 {
            Some(CharacterOutfit::MinotaurGuard)
        } else if n == 30 {
            Some(CharacterOutfit::Spider)
        } else if n == 31 {
            Some(CharacterOutfit::Deer)
        } else if n == 32 {
            Some(CharacterOutfit::Dog)
        } else if n == 33 {
            Some(CharacterOutfit::Skeleton)
        } else if n == 34 {
            Some(CharacterOutfit::Dragon)
        } else if n == 35 {
            Some(CharacterOutfit::Demon)
        } else if n == 36 {
            Some(CharacterOutfit::PoisonSpider)
        } else if n == 37 {
            Some(CharacterOutfit::DemonSkeleton)
        } else if n == 38 {
            Some(CharacterOutfit::GiantSpider)
        } else if n == 39 {
            Some(CharacterOutfit::DragonLord)
        } else if n == 40 {
            Some(CharacterOutfit::FireDevil)
        } else if n == 41 {
            Some(CharacterOutfit::Lion)
        } else if n == 42 {
            Some(CharacterOutfit::PolarBear)
        } else if n == 43 {
            Some(CharacterOutfit::Scorpion)
        } else if n == 44 {
            Some(CharacterOutfit::Wasp)
        } else if n == 45 {
            Some(CharacterOutfit::Bug)
        } else if n == 46 {
            Some(CharacterOutfit::BlackKnight)
        } else if n == 47 {
            Some(CharacterOutfit::WildWarrior)
        } else if n == 48 {
            Some(CharacterOutfit::Phantom)
        } else if n == 49 {
            Some(CharacterOutfit::FireElemental)
        } else if n == 50 {
            Some(CharacterOutfit::OrcSpearman)
        } else if n == 51 {
            Some(CharacterOutfit::OrcLeader)
        } else if n == 52 {
            Some(CharacterOutfit::WinterWolf)
        } else if n == 53 {
            Some(CharacterOutfit::FrostTroll)
        } else if n == 54 {
            Some(CharacterOutfit::Witch)
        } else if n == 55 {
            Some(CharacterOutfit::Behemoth)
        } else if n == 56 {
            Some(CharacterOutfit::PirateCaptain)
        } else if n == 57 {
            Some(CharacterOutfit::Monk)
        } else if n == 58 {
            Some(CharacterOutfit::Priestess)
        } else if n == 59 {
            Some(CharacterOutfit::OrcWarlord)
        } else if n == 60 {
            Some(CharacterOutfit::Pig)
        } else if n == 61 {
            Some(CharacterOutfit::Goblin)
        } else if n == 62 {
            Some(CharacterOutfit::Elf)
        } else if n == 63 {
            Some(CharacterOutfit::ElfArcanist)
        } else if n == 64 {
            Some(CharacterOutfit::ElfScout)
        } else if n == 65 {
            Some(CharacterOutfit::Mummy)
        } else if n == 66 {
            Some(CharacterOutfit::Pirate)
        } else if n == 67 {
            Some(CharacterOutfit::StoneGolem)
        } else if n == 68 {
            Some(CharacterOutfit::Vampire)
        } else if n == 69 {
            Some(CharacterOutfit::Dwarf)
        } else if n == 70 {
            Some(CharacterOutfit::DwarfGuard)
        } else if n == 71 {
            Some(CharacterOutfit::DwarfSoldier)
        } else if n == 73 {
            Some(CharacterOutfit::Hero)
        } else if n == 74 {
            Some(CharacterOutfit::MinotaurMage2)
        } else if n == 75 {
            Some(CharacterOutfit::GameMaster)
        } else {
            None
        }
    }
}

} // verus!
