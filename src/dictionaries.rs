//! Closed integer enumerations of the result documents, each with its wire code.
use vstd::prelude::*;

verus! {

/// How an arena ended.
#[derive(Debug, Clone, Copy, PartialEq, Eq, Structural)]
pub enum FinishReason {
    Unknow,
    AllVehicleDestroyed,
    BaseCaptured,
    TimeOut,
    ArenaFailure,
    Technical,
}

impl FinishReason {
    /// The wire code of each reason.
    pub open spec fn spec_code(self) -> i8 {
        match self {
            FinishReason::Unknow => 0,
            FinishReason::AllVehicleDestroyed => 1,
            FinishReason::BaseCaptured => 2,
            FinishReason::TimeOut => 3,
            FinishReason::ArenaFailure => 4,
            FinishReason::Technical => 5,
        }
    }

    /// The reason that a wire code stands for, if any.
    pub open spec fn spec_from_code(c: i64) -> Option<FinishReason> {
        if c == 0 {
            Some(FinishReason::Unknow)
        } else if c == 1 {
            Some(FinishReason::AllVehicleDestroyed)
        } else if c == 2 {
            Some(FinishReason::BaseCaptured)
        } else if c == 3 {
            Some(FinishReason::TimeOut)
        } else if c == 4 {
            Some(FinishReason::ArenaFailure)
        } else if c == 5 {
            Some(FinishReason::Technical)
        } else {
            None
        }
    }

    /// The wire code of this reason.
    pub fn code(&self) -> (r: i8)
        ensures
            r == self.spec_code(),
    {
        match self {
            FinishReason::Unknow => 0,
            FinishReason::AllVehicleDestroyed => 1,
            FinishReason::BaseCaptured => 2,
            FinishReason::TimeOut => 3,
            FinishReason::ArenaFailure => 4,
            FinishReason::Technical => 5,
        }
    }

    /// Decodes a wire code; `None` for a code outside the known set.
    pub fn from_code(c: i64) -> (r: Option<FinishReason>)
        ensures
            r == Self::spec_from_code(c),
    {
        if c == 0 {
            Some(FinishReason::Unknow)
        } else if c == 1 {
            Some(FinishReason::AllVehicleDestroyed)
        } else if c == 2 {
            Some(FinishReason::BaseCaptured)
        } else if c == 3 {
            Some(FinishReason::TimeOut)
        } else if c == 4 {
            Some(FinishReason::ArenaFailure)
        } else if c == 5 {
            Some(FinishReason::Technical)
        } else {
            None
        }
    }

    /// Decoding is exact: every reason's code decodes to it, and a code decodes only to
    /// the reason that has it.
    pub proof fn lemma_code_round_trip(self, c: i64)
        ensures
            Self::spec_from_code(self.spec_code() as i64) == Some(self),
            Self::spec_from_code(c) matches Some(e) ==> e.spec_code() as i64 == c,
            Self::spec_from_code(c) is None <==> !(0 <= c <= 5),
    {
    }
}

/// How a vehicle left the battle.
#[derive(Debug, Clone, Copy, PartialEq, Eq, Structural)]
pub enum DeathReason {
    Alive,
    Shot,
    Fire,
    Rammin,
    WorldCollision,
    DeathZone,
    Drowning,
    GasAttack,
    Overturn,
    Manual,
    ArtillerProtection,
    ArtilerySector,
    Bombers,
    Recovery,
    ArtilleryEq,
    BomberEq,
    NoReason,
}

impl DeathReason {
    /// The wire code of each reason: from -1 for a vehicle alive to 15.
    pub open spec fn spec_code(self) -> i8 {
        match self {
            DeathReason::Alive => -1i8,
            DeathReason::Shot => 0,
            DeathReason::Fire => 1,
            DeathReason::Rammin => 2,
            DeathReason::WorldCollision => 3,
            DeathReason::DeathZone => 4,
            DeathReason::Drowning => 5,
            DeathReason::GasAttack => 6,
            DeathReason::Overturn => 7,
            DeathReason::Manual => 8,
            DeathReason::ArtillerProtection => 9,
            DeathReason::ArtilerySector => 10,
            DeathReason::Bombers => 11,
            DeathReason::Recovery => 12,
            DeathReason::ArtilleryEq => 13,
            DeathReason::BomberEq => 14,
            DeathReason::NoReason => 15,
        }
    }

    /// The reason that a wire code stands for, if any.
    pub open spec fn spec_from_code(c: i64) -> Option<DeathReason> {
        match c {
            -1 => Some(DeathReason::Alive),
            0 => Some(DeathReason::Shot),
            1 => Some(DeathReason::Fire),
            2 => Some(DeathReason::Rammin),
            3 => Some(DeathReason::WorldCollision),
            4 => Some(DeathReason::DeathZone),
            5 => Some(DeathReason::Drowning),
            6 => Some(DeathReason::GasAttack),
            7 => Some(DeathReason::Overturn),
            8 => Some(DeathReason::Manual),
            9 => Some(DeathReason::ArtillerProtection),
            10 => Some(DeathReason::ArtilerySector),
            11 => Some(DeathReason::Bombers),
            12 => Some(DeathReason::Recovery),
            13 => Some(DeathReason::ArtilleryEq),
            14 => Some(DeathReason::BomberEq),
            15 => Some(DeathReason::NoReason),
            _ => Option::None,
        }
    }

    /// The wire code of this reason.
    pub fn code(&self) -> (r: i8)
        ensures
            r == self.spec_code(),
    {
        match self {
            DeathReason::Alive => -1,
            DeathReason::Shot => 0,
            DeathReason::Fire => 1,
            DeathReason::Rammin => 2,
            DeathReason::WorldCollision => 3,
            DeathReason::DeathZone => 4,
            DeathReason::Drowning => 5,
            DeathReason::GasAttack => 6,
            DeathReason::Overturn => 7,
            DeathReason::Manual => 8,
            DeathReason::ArtillerProtection => 9,
            DeathReason::ArtilerySector => 10,
            DeathReason::Bombers => 11,
            DeathReason::Recovery => 12,
            DeathReason::ArtilleryEq => 13,
            DeathReason::BomberEq => 14,
            DeathReason::NoReason => 15,
        }
    }

    /// Decodes a wire code; `None` for a code outside the known set.
    pub fn from_code(c: i64) -> (r: Option<DeathReason>)
        ensures
            r == Self::spec_from_code(c),
    {
        match c {
            -1 => Some(DeathReason::Alive),
            0 => Some(DeathReason::Shot),
            1 => Some(DeathReason::Fire),
            2 => Some(DeathReason::Rammin),
            3 => Some(DeathReason::WorldCollision),
            4 => Some(DeathReason::DeathZone),
            5 => Some(DeathReason::Drowning),
            6 => Some(DeathReason::GasAttack),
            7 => Some(DeathReason::Overturn),
            8 => Some(DeathReason::Manual),
            9 => Some(DeathReason::ArtillerProtection),
            10 => Some(DeathReason::ArtilerySector),
            11 => Some(DeathReason::Bombers),
            12 => Some(DeathReason::Recovery),
            13 => Some(DeathReason::ArtilleryEq),
            14 => Some(DeathReason::BomberEq),
            15 => Some(DeathReason::NoReason),
            _ => Option::None,
        }
    }

    /// Decoding is exact: every reason's code decodes to it, and a code decodes only to
    /// the reason that has it.
    pub proof fn lemma_code_round_trip(self, c: i64)
        ensures
            Self::spec_from_code(self.spec_code() as i64) == Some(self),
            Self::spec_from_code(c) matches Some(e) ==> e.spec_code() as i64 == c,
            Self::spec_from_code(c) is None <==> !(-1 <= c <= 15),
    {
    }
}

/// Contains mastery level badges
#[derive(Debug, Clone, Copy, PartialEq, Eq, Structural)]
pub enum MasterLevel {
    Third,
    Second,
    First,
    Master,
    NoValue,
}

impl MasterLevel {
    /// The game's identifier of each value.
    pub open spec fn spec_code(self) -> i32 {
        match self {
            MasterLevel::Third => 1,
            MasterLevel::Second => 2,
            MasterLevel::First => 3,
            MasterLevel::Master => 4,
            MasterLevel::NoValue => 0,
        }
    }

    /// The game's identifier of this value.
    pub fn code(&self) -> (r: i32)
        ensures
            r == self.spec_code(),
    {
        match self {
            MasterLevel::Third => 1,
            MasterLevel::Second => 2,
            MasterLevel::First => 3,
            MasterLevel::Master => 4,
            MasterLevel::NoValue => 0,
        }
    }
}

/// Contains premium accounts values
#[derive(Debug, Clone, Copy, PartialEq, Eq, Structural)]
pub enum PremType {
    Basic,
    Plus,
    Vip,
    NoValue,
}

impl PremType {
    /// The game's identifier of each value.
    pub open spec fn spec_code(self) -> i32 {
        match self {
            PremType::Basic => 1,
            PremType::Plus => 2,
            PremType::Vip => 4,
            PremType::NoValue => 0,
        }
    }

    /// The game's identifier of this value.
    pub fn code(&self) -> (r: i32)
        ensures
            r == self.spec_code(),
    {
        match self {
            PremType::Basic => 1,
            PremType::Plus => 2,
            PremType::Vip => 4,
            PremType::NoValue => 0,
        }
    }
}

/// Battle-hero medal identifiers.
#[derive(Debug, Clone, Copy, PartialEq, Eq, Structural)]
pub enum BattleHeroMedal {
    Invader,
    Sniper,
    Sniper2,
    MainGun,
    Defender,
    Steelwall,
    Supporter,
    Scout,
    Evileye,
}

impl BattleHeroMedal {
    /// The game's identifier of each value.
    pub open spec fn spec_code(self) -> i32 {
        match self {
            BattleHeroMedal::Invader => 35,
            BattleHeroMedal::Sniper => 36,
            BattleHeroMedal::Sniper2 => 227,
            BattleHeroMedal::MainGun => 228,
            BattleHeroMedal::Defender => 37,
            BattleHeroMedal::Steelwall => 38,
            BattleHeroMedal::Supporter => 39,
            BattleHeroMedal::Scout => 40,
            BattleHeroMedal::Evileye => 72,
        }
    }

    /// The game's identifier of this value.
    pub fn code(&self) -> (r: i32)
        ensures
            r == self.spec_code(),
    {
        match self {
            BattleHeroMedal::Invader => 35,
            BattleHeroMedal::Sniper => 36,
            BattleHeroMedal::Sniper2 => 227,
            BattleHeroMedal::MainGun => 228,
            BattleHeroMedal::Defender => 37,
            BattleHeroMedal::Steelwall => 38,
            BattleHeroMedal::Supporter => 39,
            BattleHeroMedal::Scout => 40,
            BattleHeroMedal::Evileye => 72,
        }
    }
}

/// Epic medal identifiers.
#[derive(Debug, Clone, Copy, PartialEq, Eq, Structural)]
pub enum EpicMedal {
    MedalRadleyWalters,
    MedalLafayettePool,
    HeroesOfRassenay,
    MedalBillotte,
    MedalBrunoPietro,
    MedalTarczay,
    MedalBurda,
    MedalPascucci,
    MedalDumitru,
    MedalOskin,
    MedalHalonen,
    MedalKolobanov,
    MedalFadin,
    MedalDeLanglade,
    MedalGore,
    Huntsman,
    MedalTamadaYoshio,
    MedalStark,
}

impl EpicMedal {
    /// The game's identifier of each value.
    pub open spec fn spec_code(self) -> i32 {
        match self {
            EpicMedal::MedalRadleyWalters => 73,
            EpicMedal::MedalLafayettePool => 74,
            EpicMedal::HeroesOfRassenay => 110,
            EpicMedal::MedalBillotte => 54,
            EpicMedal::MedalBrunoPietro => 75,
            EpicMedal::MedalTarczay => 76,
            EpicMedal::MedalBurda => 53,
            EpicMedal::MedalPascucci => 77,
            EpicMedal::MedalDumitru => 78,
            EpicMedal::MedalOskin => 51,
            EpicMedal::MedalHalonen => 52,
            EpicMedal::MedalKolobanov => 55,
            EpicMedal::MedalFadin => 56,
            EpicMedal::MedalDeLanglade => 145,
            EpicMedal::MedalGore => 298,
            EpicMedal::Huntsman => 148,
            EpicMedal::MedalTamadaYoshio => 146,
            EpicMedal::MedalStark => 300,
        }
    }

    /// The game's identifier of this value.
    pub fn code(&self) -> (r: i32)
        ensures
            r == self.spec_code(),
    {
        match self {
            EpicMedal::MedalRadleyWalters => 73,
            EpicMedal::MedalLafayettePool => 74,
            EpicMedal::HeroesOfRassenay => 110,
            EpicMedal::MedalBillotte => 54,
            EpicMedal::MedalBrunoPietro => 75,
            EpicMedal::MedalTarczay => 76,
            EpicMedal::MedalBurda => 53,
            EpicMedal::MedalPascucci => 77,
            EpicMedal::MedalDumitru => 78,
            EpicMedal::MedalOskin => 51,
            EpicMedal::MedalHalonen => 52,
            EpicMedal::MedalKolobanov => 55,
            EpicMedal::MedalFadin => 56,
            EpicMedal::MedalDeLanglade => 145,
            EpicMedal::MedalGore => 298,
            EpicMedal::Huntsman => 148,
            EpicMedal::MedalTamadaYoshio => 146,
            EpicMedal::MedalStark => 300,
        }
    }
}

/// Dossier achievement identifiers.
#[derive(Debug, Clone, Copy, PartialEq, Eq, Structural)]
pub enum DossierAchivements {
    FragBeast,
    FragsSinai,
    FragsPatton,
    Warrior,
    Invader,
    Sniper,
    Sniper2,
    MainGun,
    Defender,
    Steelwall,
    Supporter,
    Scout,
    Evileye,
    BattleHeroes,
    SniperSiries,
    MaxSniperSiries,
    InvincibleSeries,
    MaxInvincibleSeries,
    DiehardSeries,
    MaxDiehardSeries,
}

impl DossierAchivements {
    /// The game's identifier of each value.
    pub open spec fn spec_code(self) -> i32 {
        match self {
            DossierAchivements::FragBeast => 14,
            DossierAchivements::FragsSinai => 108,
            DossierAchivements::FragsPatton => 153,
            DossierAchivements::Warrior => 34,
            DossierAchivements::Invader => 35,
            DossierAchivements::Sniper => 36,
            DossierAchivements::Sniper2 => 227,
            DossierAchivements::MainGun => 228,
            DossierAchivements::Defender => 37,
            DossierAchivements::Steelwall => 38,
            DossierAchivements::Supporter => 39,
            DossierAchivements::Scout => 40,
            DossierAchivements::Evileye => 72,
            DossierAchivements::BattleHeroes => 10,
            DossierAchivements::SniperSiries => 23,
            DossierAchivements::MaxSniperSiries => 24,
            DossierAchivements::InvincibleSeries => 25,
            DossierAchivements::MaxInvincibleSeries => 26,
            DossierAchivements::DiehardSeries => 27,
            DossierAchivements::MaxDiehardSeries => 28,
        }
    }

    /// The game's identifier of this value.
    pub fn code(&self) -> (r: i32)
        ensures
            r == self.spec_code(),
    {
        match self {
            DossierAchivements::FragBeast => 14,
            DossierAchivements::FragsSinai => 108,
            DossierAchivements::FragsPatton => 153,
            DossierAchivements::Warrior => 34,
            DossierAchivements::Invader => 35,
            DossierAchivements::Sniper => 36,
            DossierAchivements::Sniper2 => 227,
            DossierAchivements::MainGun => 228,
            DossierAchivements::Defender => 37,
            DossierAchivements::Steelwall => 38,
            DossierAchivements::Supporter => 39,
            DossierAchivements::Scout => 40,
            DossierAchivements::Evileye => 72,
            DossierAchivements::BattleHeroes => 10,
            DossierAchivements::SniperSiries => 23,
            DossierAchivements::MaxSniperSiries => 24,
            DossierAchivements::InvincibleSeries => 25,
            DossierAchivements::MaxInvincibleSeries => 26,
            DossierAchivements::DiehardSeries => 27,
            DossierAchivements::MaxDiehardSeries => 28,
        }
    }
}
} // verus!
