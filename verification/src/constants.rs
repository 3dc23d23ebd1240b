//! Visual effects, fluids and object-update kinds carried on the wire.

use vstd::prelude::*;

verus! {

#[derive(Debug, Copy, Clone, Eq, PartialEq, Structural)]
pub enum MagicEffect {
    DrawBlood,
    LoseEnergy,
    Puff,
    BlockHit,
    Explosion1,
    Explosion2,
    Explosiom3,
    YellowRing,
    GreenRing,
    HitArea,
    Teleport,
    EnergyDamage,
    BlueSparkles,
    RedSparkles,
    GreenSparkles,
    Burn,
    SplashPoison,
    DarkDamage,
}

impl MagicEffect {
    /// The wire byte for this effect.
    pub open spec fn spec_number(self) -> u8 {
        match self {
            MagicEffect::DrawBlood => 0,
            MagicEffect::LoseEnergy => 1,
            MagicEffect::Puff => 2,
            MagicEffect::BlockHit => 3,
            MagicEffect::Explosion1 => 4,
            MagicEffect::Explosion2 => 5,
            MagicEffect::Explosiom3 => 6,
            MagicEffect::YellowRing => 7,
            MagicEffect::GreenRing => 8,
            MagicEffect::HitArea => 9,
            MagicEffect::Teleport => 10,
            MagicEffect::EnergyDamage => 11,
            MagicEffect::BlueSparkles => 12,
            MagicEffect::RedSparkles => 13,
            MagicEffect::GreenSparkles => 14,
            MagicEffect::Burn => 15,
            MagicEffect::SplashPoison => 16,
            MagicEffect::DarkDamage => 17,
        }
    }

    #[verifier::when_used_as_spec(spec_number)]
    pub fn number(self) -> (n: u8)
        ensures
            n == self.spec_number(),
    {
        match self {
            MagicEffect::DrawBlood => 0,
            MagicEffect::LoseEnergy => 1,
            MagicEffect::Puff => 2,
            MagicEffect::BlockHit => 3,
            MagicEffect::Explosion1 => 4,
            MagicEffect::Explosion2 => 5,
            MagicEffect::Explosiom3 => 6,
            MagicEffect::YellowRing => 7,
            MagicEffect::GreenRing => 8,
            MagicEffect::HitArea => 9,
            MagicEffect::Teleport => 10,
            MagicEffect::EnergyDamage => 11,
            MagicEffect::BlueSparkles => 12,
            MagicEffect::RedSparkles => 13,
            MagicEffect::GreenSparkles => 14,
            MagicEffect::Burn => 15,
            MagicEffect::SplashPoison => 16,
            MagicEffect::DarkDamage => 17,
        }
    }

    pub open spec fn spec_from_number(n: u8) -> Option<MagicEffect> {
        if n == 0 {
            Some(MagicEffect::DrawBlood)
        } else if n == 1 {
            Some(MagicEffect::LoseEnergy)
        } else if n == 2 {
            Some(MagicEffect::Puff)
        } else if n == 3 {
            Some(MagicEffect::BlockHit)
        } else if n == 4 {
            Some(MagicEffect::Explosion1)
        } else if n == 5 {
            Some(MagicEffect::Explosion2)
        } else if n == 6 {
            Some(MagicEffect::Explosiom3)
        } else if n == 7 {
            Some(MagicEffect::YellowRing)
        } else if n == 8 {
            Some(MagicEffect::GreenRing)
        } else if n == 9 {
            Some(MagicEffect::HitArea)
        } else if n == 10 {
            Some(MagicEffect::Teleport)
        } else if n == 11 {
            Some(MagicEffect::EnergyDamage)
        } else if n == 12 {
            Some(MagicEffect::BlueSparkles)
        } else if n == 13 {
            Some(MagicEffect::RedSparkles)
        } else if n == 14 {
            Some(MagicEffect::GreenSparkles)
        } else if n == 15 {
            Some(MagicEffect::Burn)
        } else if n == 16 {
            Some(MagicEffect::SplashPoison)
        } else if n == 17 {
            Some(MagicEffect::DarkDamage)
        } else {
            None
        }
    }

    pub fn try_from_number(n: u8) -> (r: Option<MagicEffect>)
        ensures
            r == Self::spec_from_number(n),
    {
        if n == 0 {
            Some(MagicEffect::DrawBlood)
        } else if n == 1 {
            Some(MagicEffect::LoseEnergy)
        } else if n == 2 {
            Some(MagicEffect::Puff)
        } else if n == 3 {
            Some(MagicEffect::BlockHit)
        } else if n == 4 {
            Some(MagicEffect::Explosion1)
        } else if n == 5 {
            Some(MagicEffect::Explosion2)
        } else if n == 6 {
            Some(MagicEffect::Explosiom3)
        } else if n == 7 {
            Some(MagicEffect::YellowRing)
        } else if n == 8 {
            Some(MagicEffect::GreenRing)
        } else if n == 9 {
            Some(MagicEffect::HitArea)
        } else if n == 10 {
            Some(MagicEffect::Teleport)
        } else if n == 11 {
            Some(MagicEffect::EnergyDamage)
        } else if n == 12 {
            Some(MagicEffect::BlueSparkles)
        } else if n == 13 {
            Some(MagicEffect::RedSparkles)
        } else if n == 14 {
            Some(MagicEffect::GreenSparkles)
        } else if n == 15 {
            Some(MagicEffect::Burn)
        } else if n == 16 {
            Some(MagicEffect::SplashPoison)
        } else if n == 17 {
            Some(MagicEffect::DarkDamage)
        } else {
            None
        }
    }
}

#[derive(Debug, Copy, Clone, Eq, PartialEq, Structural)]
pub enum Fluid {
    Empty,
    Blue,
    Red,
    Brown,
    Green,
    Yellow,
    White,
    Purple,
}

impl Fluid {
    /// The wire byte for this fluid color.
    pub open spec fn spec_number(self) -> u8 {
        match self {
            Fluid::Empty => 0,
            Fluid::Blue => 1,
            Fluid::Red => 2,
            Fluid::Brown => 3,
            Fluid::Green => 4,
            Fluid::Yellow => 5,
            Fluid::White => 6,
            Fluid::Purple => 7,
        }
    }

    #[verifier::when_used_as_spec(spec_number)]
    pub fn number(self) -> (n: u8)
        ensures
            n == self.spec_number(),
    {
        match self {
            Fluid::Empty => 0,
            Fluid::Blue => 1,
            Fluid::Red => 2,
            Fluid::Brown => 3,
            Fluid::Green => 4,
            Fluid::Yellow => 5,
            Fluid::White => 6,
            Fluid::Purple => 7,
        }
    }
}

#[derive(Debug, Copy, Clone, Eq, PartialEq, Structural)]
pub enum ObjectUpdateType {
    Remove,
    Add,
    Update,
}

impl ObjectUpdateType {
    /// The wire byte for this update kind under revisions 300 and later.
    pub open spec fn spec_number(self) -> u8 {
        match self {
            ObjectUpdateType::Remove => 0,
            ObjectUpdateType::Add => 1,
            ObjectUpdateType::Update => 2,
        }
    }

    #[verifier::when_used_as_spec(spec_number)]
    pub fn number(self) -> (n: u8)
        ensures
            n == self.spec_number(),
    {
        match self {
            ObjectUpdateType::Remove => 0,
            ObjectUpdateType::Add => 1,
            ObjectUpdateType::Update => 2,
        }
    }

    /// The oldest revision swaps the meaning of the add and remove codes.
    pub open spec fn spec_to_protocol_103_type(self) -> ObjectUpdateType {
        match self {
            ObjectUpdateType::Remove => ObjectUpdateType::Add,
            ObjectUpdateType::Add => ObjectUpdateType::Remove,
            ObjectUpdateType::Update => ObjectUpdateType::Update,
        }
    }

    pub fn to_protocol_103_type(self) -> (r: ObjectUpdateType)
        ensures
            r == self.spec_to_protocol_103_type(),
    {
        match self {
            ObjectUpdateType::Remove => ObjectUpdateType::Add,
            ObjectUpdateType::Add => ObjectUpdateType::Remove,
            ObjectUpdateType::Update => ObjectUpdateType::Update,
        }
    }
}

} // verus!
