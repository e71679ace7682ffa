//! Skill ids of each class that the engine singles out (identity and
//! synergy skills). Each variant's `id` is the skill id on the wire.
use vstd::prelude::*;

verus! {

#[derive(Debug, Clone, Copy, PartialEq, Eq, Structural, Hash)]
pub enum BerserkerSkills {
    BloodyRush,
    HellBlade,
    RedDust,
    BloodySurge,
    RageDeathblade,
}

impl BerserkerSkills {
    pub open spec fn spec_id(self) -> u32 {
        match self {
            BerserkerSkills::BloodyRush => 16140,
            BerserkerSkills::HellBlade => 16080,
            BerserkerSkills::RedDust => 16120,
            BerserkerSkills::BloodySurge => 16720,
            BerserkerSkills::RageDeathblade => 16730,
        }
    }

    /// The skill id on the wire.
    pub fn id(self) -> (r: u32)
        ensures
            r == self.spec_id(),
    {
        match self {
            BerserkerSkills::BloodyRush => 16140,
            BerserkerSkills::HellBlade => 16080,
            BerserkerSkills::RedDust => 16120,
            BerserkerSkills::BloodySurge => 16720,
            BerserkerSkills::RageDeathblade => 16730,
        }
    }
}

#[derive(Debug, Clone, Copy, PartialEq, Eq, Structural, Hash)]
pub enum BardSkills {
    Sonatina,
    WindOfMusic,
    Stigma,
    GuardianTune,
    PreludeOfStorm,
    RhapsodyOfLight,
    HeavenlyTune,
    Concerto,
    SymphonyMelody,
}

impl BardSkills {
    pub open spec fn spec_id(self) -> u32 {
        match self {
            BardSkills::Sonatina => 21290,
            BardSkills::WindOfMusic => 21070,
            BardSkills::Stigma => 21090,
            BardSkills::GuardianTune => 21250,
            BardSkills::PreludeOfStorm => 21080,
            BardSkills::RhapsodyOfLight => 21260,
            BardSkills::HeavenlyTune => 21160,
            BardSkills::Concerto => 21330,
            BardSkills::SymphonyMelody => 21320,
        }
    }

    /// The skill id on the wire.
    pub fn id(self) -> (r: u32)
        ensures
            r == self.spec_id(),
    {
        match self {
            BardSkills::Sonatina => 21290,
            BardSkills::WindOfMusic => 21070,
            BardSkills::Stigma => 21090,
            BardSkills::GuardianTune => 21250,
            BardSkills::PreludeOfStorm => 21080,
            BardSkills::RhapsodyOfLight => 21260,
            BardSkills::HeavenlyTune => 21160,
            BardSkills::Concerto => 21330,
            BardSkills::SymphonyMelody => 21320,
        }
    }
}

#[derive(Debug, Clone, Copy, PartialEq, Eq, Structural, Hash)]
pub enum PaladinSkills {
    AlithanesDevotion,
    AlithanesRage,
    LightShock,
    SwordOfJustice,
    GodsDecree,
    HolyExplosion,
    HeavenlyBlessings,
    WrathOfGod,
}

impl PaladinSkills {
    pub open spec fn spec_id(self) -> u32 {
        match self {
            PaladinSkills::AlithanesDevotion => 36230,
            PaladinSkills::AlithanesRage => 36240,
            PaladinSkills::LightShock => 36050,
            PaladinSkills::SwordOfJustice => 36080,
            PaladinSkills::GodsDecree => 36150,
            PaladinSkills::HolyExplosion => 36100,
            PaladinSkills::HeavenlyBlessings => 36200,
            PaladinSkills::WrathOfGod => 36170,
        }
    }

    /// The skill id on the wire.
    pub fn id(self) -> (r: u32)
        ensures
            r == self.spec_id(),
    {
        match self {
            PaladinSkills::AlithanesDevotion => 36230,
            PaladinSkills::AlithanesRage => 36240,
            PaladinSkills::LightShock => 36050,
            PaladinSkills::SwordOfJustice => 36080,
            PaladinSkills::GodsDecree => 36150,
            PaladinSkills::HolyExplosion => 36100,
            PaladinSkills::HeavenlyBlessings => 36200,
            PaladinSkills::WrathOfGod => 36170,
        }
    }
}

#[derive(Debug, Clone, Copy, PartialEq, Eq, Structural, Hash)]
pub enum ArtistSkills {
    PaintSunsketch,
    PaintSunWell,
    PaintStarryNight,
    PaintDrawingOrchids,
    PaintIllusionDoor,
    HolyBeastSummonPhoenix,
    DreamBlossomGarden,
    PaintCattleDrive,
}

impl ArtistSkills {
    pub open spec fn spec_id(self) -> u32 {
        match self {
            ArtistSkills::PaintSunsketch => 31400,
            ArtistSkills::PaintSunWell => 31410,
            ArtistSkills::PaintStarryNight => 31450,
            ArtistSkills::PaintDrawingOrchids => 31420,
            ArtistSkills::PaintIllusionDoor => 31220,
            ArtistSkills::HolyBeastSummonPhoenix => 31920,
            ArtistSkills::DreamBlossomGarden => 31930,
            ArtistSkills::PaintCattleDrive => 31940,
        }
    }

    /// The skill id on the wire.
    pub fn id(self) -> (r: u32)
        ensures
            r == self.spec_id(),
    {
        match self {
            ArtistSkills::PaintSunsketch => 31400,
            ArtistSkills::PaintSunWell => 31410,
            ArtistSkills::PaintStarryNight => 31450,
            ArtistSkills::PaintDrawingOrchids => 31420,
            ArtistSkills::PaintIllusionDoor => 31220,
            ArtistSkills::HolyBeastSummonPhoenix => 31920,
            ArtistSkills::DreamBlossomGarden => 31930,
            ArtistSkills::PaintCattleDrive => 31940,
        }
    }
}

#[derive(Debug, Clone, Copy, PartialEq, Eq, Structural, Hash)]
pub enum SorceressSkills {
    Explosion,
    Doomsday,
    PunishingStrike,
}

impl SorceressSkills {
    pub open spec fn spec_id(self) -> u32 {
        match self {
            SorceressSkills::Explosion => 37330,
            SorceressSkills::Doomsday => 37350,
            SorceressSkills::PunishingStrike => 37270,
        }
    }

    /// The skill id on the wire.
    pub fn id(self) -> (r: u32)
        ensures
            r == self.spec_id(),
    {
        match self {
            SorceressSkills::Explosion => 37330,
            SorceressSkills::Doomsday => 37350,
            SorceressSkills::PunishingStrike => 37270,
        }
    }
}

#[derive(Debug, Clone, Copy, PartialEq, Eq, Structural, Hash)]
pub enum SouleaterSkills {
    LethalSpinning,
    DeadlyCombination,
    Fatality,
}

impl SouleaterSkills {
    pub open spec fn spec_id(self) -> u32 {
        match self {
            SouleaterSkills::LethalSpinning => 46250,
            SouleaterSkills::DeadlyCombination => 46620,
            SouleaterSkills::Fatality => 46630,
        }
    }

    /// The skill id on the wire.
    pub fn id(self) -> (r: u32)
        ensures
            r == self.spec_id(),
    {
        match self {
            SouleaterSkills::LethalSpinning => 46250,
            SouleaterSkills::DeadlyCombination => 46620,
            SouleaterSkills::Fatality => 46630,
        }
    }
}

#[derive(Debug, Clone, Copy, PartialEq, Eq, Structural, Hash)]
pub enum DestroyerSkills {
    EarthWave,
    GalaxyBreak,
    HyperBigBang,
}

impl DestroyerSkills {
    pub open spec fn spec_id(self) -> u32 {
        match self {
            DestroyerSkills::EarthWave => 18090,
            DestroyerSkills::GalaxyBreak => 18240,
            DestroyerSkills::HyperBigBang => 18250,
        }
    }

    /// The skill id on the wire.
    pub fn id(self) -> (r: u32)
        ensures
            r == self.spec_id(),
    {
        match self {
            DestroyerSkills::EarthWave => 18090,
            DestroyerSkills::GalaxyBreak => 18240,
            DestroyerSkills::HyperBigBang => 18250,
        }
    }
}

#[derive(Debug, Clone, Copy, PartialEq, Eq, Structural, Hash)]
pub enum GunlancerSkills {
    GuardiansOath,
    JusticeServed,
    SurgeCannon,
    ChargedStinger,
    GuardiansThundercrack,
}

impl GunlancerSkills {
    pub open spec fn spec_id(self) -> u32 {
        match self {
            GunlancerSkills::GuardiansOath => 17250,
            GunlancerSkills::JusticeServed => 17260,
            GunlancerSkills::SurgeCannon => 17200,
            GunlancerSkills::ChargedStinger => 17210,
            GunlancerSkills::GuardiansThundercrack => 17140,
        }
    }

    /// The skill id on the wire.
    pub fn id(self) -> (r: u32)
        ensures
            r == self.spec_id(),
    {
        match self {
            GunlancerSkills::GuardiansOath => 17250,
            GunlancerSkills::JusticeServed => 17260,
            GunlancerSkills::SurgeCannon => 17200,
            GunlancerSkills::ChargedStinger => 17210,
            GunlancerSkills::GuardiansThundercrack => 17140,
        }
    }
}

#[derive(Debug, Clone, Copy, PartialEq, Eq, Structural, Hash)]
pub enum SlayerSkills {
    RageSlasher,
    RagnaDeathblade,
    Bloodlust,
}

impl SlayerSkills {
    pub open spec fn spec_id(self) -> u32 {
        match self {
            SlayerSkills::RageSlasher => 45820,
            SlayerSkills::RagnaDeathblade => 45830,
            SlayerSkills::Bloodlust => 45004,
        }
    }

    /// The skill id on the wire.
    pub fn id(self) -> (r: u32)
        ensures
            r == self.spec_id(),
    {
        match self {
            SlayerSkills::RageSlasher => 45820,
            SlayerSkills::RagnaDeathblade => 45830,
            SlayerSkills::Bloodlust => 45004,
        }
    }
}

#[derive(Debug, Clone, Copy, PartialEq, Eq, Structural, Hash)]
pub enum ArcanistSkills {
    Death,
    TheTower,
    Emperor,
}

impl ArcanistSkills {
    pub open spec fn spec_id(self) -> u32 {
        match self {
            ArcanistSkills::Death => 19370,
            ArcanistSkills::TheTower => 19360,
            ArcanistSkills::Emperor => 19282,
        }
    }

    /// The skill id on the wire.
    pub fn id(self) -> (r: u32)
        ensures
            r == self.spec_id(),
    {
        match self {
            ArcanistSkills::Death => 19370,
            ArcanistSkills::TheTower => 19360,
            ArcanistSkills::Emperor => 19282,
        }
    }
}

#[derive(Debug, Clone, Copy, PartialEq, Eq, Structural, Hash)]
pub enum SummonerSkills {
    JudgeKelsion,
    BagronsFrenzy,
}

impl SummonerSkills {
    pub open spec fn spec_id(self) -> u32 {
        match self {
            SummonerSkills::JudgeKelsion => 20350,
            SummonerSkills::BagronsFrenzy => 20370,
        }
    }

    /// The skill id on the wire.
    pub fn id(self) -> (r: u32)
        ensures
            r == self.spec_id(),
    {
        match self {
            SummonerSkills::JudgeKelsion => 20350,
            SummonerSkills::BagronsFrenzy => 20370,
        }
    }
}

#[derive(Debug, Clone, Copy, PartialEq, Eq, Structural, Hash)]
pub enum WardancerSkills {
    UltimateSkillGreatRagingDemonKick,
    UltimateSkillEightTrigramsChaoticStrike,
    EsotericSkillAzureDragonSupremeFist,
}

impl WardancerSkills {
    pub open spec fn spec_id(self) -> u32 {
        match self {
            WardancerSkills::UltimateSkillGreatRagingDemonKick => 22370,
            WardancerSkills::UltimateSkillEightTrigramsChaoticStrike => 22360,
            WardancerSkills::EsotericSkillAzureDragonSupremeFist => 22340,
        }
    }

    /// The skill id on the wire.
    pub fn id(self) -> (r: u32)
        ensures
            r == self.spec_id(),
    {
        match self {
            WardancerSkills::UltimateSkillGreatRagingDemonKick => 22370,
            WardancerSkills::UltimateSkillEightTrigramsChaoticStrike => 22360,
            WardancerSkills::EsotericSkillAzureDragonSupremeFist => 22340,
        }
    }
}

#[derive(Debug, Clone, Copy, PartialEq, Eq, Structural, Hash)]
pub enum ScrapperSkills {
    DivineDragonCreation,
    SupremeHeavenShatteringFist,
    IronCannonBlow,
}

impl ScrapperSkills {
    pub open spec fn spec_id(self) -> u32 {
        match self {
            ScrapperSkills::DivineDragonCreation => 23410,
            ScrapperSkills::SupremeHeavenShatteringFist => 23400,
            ScrapperSkills::IronCannonBlow => 23230,
        }
    }

    /// The skill id on the wire.
    pub fn id(self) -> (r: u32)
        ensures
            r == self.spec_id(),
    {
        match self {
            ScrapperSkills::DivineDragonCreation => 23410,
            ScrapperSkills::SupremeHeavenShatteringFist => 23400,
            ScrapperSkills::IronCannonBlow => 23230,
        }
    }
}

#[derive(Debug, Clone, Copy, PartialEq, Eq, Structural, Hash)]
pub enum SoulfistSkills {
    FallingSun,
    SupernovaPurgationRay,
    Shadowbreaker,
}

impl SoulfistSkills {
    pub open spec fn spec_id(self) -> u32 {
        match self {
            SoulfistSkills::FallingSun => 24300,
            SoulfistSkills::SupernovaPurgationRay => 24310,
            SoulfistSkills::Shadowbreaker => 24200,
        }
    }

    /// The skill id on the wire.
    pub fn id(self) -> (r: u32)
        ensures
            r == self.spec_id(),
    {
        match self {
            SoulfistSkills::FallingSun => 24300,
            SoulfistSkills::SupernovaPurgationRay => 24310,
            SoulfistSkills::Shadowbreaker => 24200,
        }
    }
}

#[derive(Debug, Clone, Copy, PartialEq, Eq, Structural, Hash)]
pub enum GlaivierSkills {
    YeonStyleSpearTechniqueGalaxyFlyingSpear,
    YeonStyleSpearTechniqueDragonCavalryUnitySlash,
    RedDragonsHorn,
}

impl GlaivierSkills {
    pub open spec fn spec_id(self) -> u32 {
        match self {
            GlaivierSkills::YeonStyleSpearTechniqueGalaxyFlyingSpear => 34620,
            GlaivierSkills::YeonStyleSpearTechniqueDragonCavalryUnitySlash => 34630,
            GlaivierSkills::RedDragonsHorn => 34590,
        }
    }

    /// The skill id on the wire.
    pub fn id(self) -> (r: u32)
        ensures
            r == self.spec_id(),
    {
        match self {
            GlaivierSkills::YeonStyleSpearTechniqueGalaxyFlyingSpear => 34620,
            GlaivierSkills::YeonStyleSpearTechniqueDragonCavalryUnitySlash => 34630,
            GlaivierSkills::RedDragonsHorn => 34590,
        }
    }
}

#[derive(Debug, Clone, Copy, PartialEq, Eq, Structural, Hash)]
pub enum StrikerSkills {
    UltimateSkillThunderboltKick,
    UltimateSkillMountainLordsExplosiveRoar,
    EsotericSkillCallOfTheWindGod,
}

impl StrikerSkills {
    pub open spec fn spec_id(self) -> u32 {
        match self {
            StrikerSkills::UltimateSkillThunderboltKick => 39340,
            StrikerSkills::UltimateSkillMountainLordsExplosiveRoar => 39350,
            StrikerSkills::EsotericSkillCallOfTheWindGod => 39110,
        }
    }

    /// The skill id on the wire.
    pub fn id(self) -> (r: u32)
        ensures
            r == self.spec_id(),
    {
        match self {
            StrikerSkills::UltimateSkillThunderboltKick => 39340,
            StrikerSkills::UltimateSkillMountainLordsExplosiveRoar => 39350,
            StrikerSkills::EsotericSkillCallOfTheWindGod => 39110,
        }
    }
}

#[derive(Debug, Clone, Copy, PartialEq, Eq, Structural, Hash)]
pub enum BreakerSkills {
    HeavenlyPunishment,
    CelestialFist,
    AsuraDestructionBasicAttack,
}

impl BreakerSkills {
    pub open spec fn spec_id(self) -> u32 {
        match self {
            BreakerSkills::HeavenlyPunishment => 47300,
            BreakerSkills::CelestialFist => 47310,
            BreakerSkills::AsuraDestructionBasicAttack => 47020,
        }
    }

    /// The skill id on the wire.
    pub fn id(self) -> (r: u32)
        ensures
            r == self.spec_id(),
    {
        match self {
            BreakerSkills::HeavenlyPunishment => 47300,
            BreakerSkills::CelestialFist => 47310,
            BreakerSkills::AsuraDestructionBasicAttack => 47020,
        }
    }
}

#[derive(Debug, Clone, Copy, PartialEq, Eq, Structural, Hash)]
pub enum DeathbladeSkills {
    EternalFlash,
    ChaoticDeathblade,
    Zero,
}

impl DeathbladeSkills {
    pub open spec fn spec_id(self) -> u32 {
        match self {
            DeathbladeSkills::EternalFlash => 25410,
            DeathbladeSkills::ChaoticDeathblade => 25420,
            DeathbladeSkills::Zero => 25038,
        }
    }

    /// The skill id on the wire.
    pub fn id(self) -> (r: u32)
        ensures
            r == self.spec_id(),
    {
        match self {
            DeathbladeSkills::EternalFlash => 25410,
            DeathbladeSkills::ChaoticDeathblade => 25420,
            DeathbladeSkills::Zero => 25038,
        }
    }
}

#[derive(Debug, Clone, Copy, PartialEq, Eq, Structural, Hash)]
pub enum ShadowhunterSkills {
    DarknessBlast,
    RayOfRuin,
    BloodMassacre,
}

impl ShadowhunterSkills {
    pub open spec fn spec_id(self) -> u32 {
        match self {
            ShadowhunterSkills::DarknessBlast => 27910,
            ShadowhunterSkills::RayOfRuin => 27920,
            ShadowhunterSkills::BloodMassacre => 27860,
        }
    }

    /// The skill id on the wire.
    pub fn id(self) -> (r: u32)
        ensures
            r == self.spec_id(),
    {
        match self {
            ShadowhunterSkills::DarknessBlast => 27910,
            ShadowhunterSkills::RayOfRuin => 27920,
            ShadowhunterSkills::BloodMassacre => 27860,
        }
    }
}

#[derive(Debug, Clone, Copy, PartialEq, Eq, Structural, Hash)]
pub enum ReaperSkills {
    CadenzaDeLaLuna,
    RequiemDelSol,
}

impl ReaperSkills {
    pub open spec fn spec_id(self) -> u32 {
        match self {
            ReaperSkills::CadenzaDeLaLuna => 26940,
            ReaperSkills::RequiemDelSol => 26950,
        }
    }

    /// The skill id on the wire.
    pub fn id(self) -> (r: u32)
        ensures
            r == self.spec_id(),
    {
        match self {
            ReaperSkills::CadenzaDeLaLuna => 26940,
            ReaperSkills::RequiemDelSol => 26950,
        }
    }
}

#[derive(Debug, Clone, Copy, PartialEq, Eq, Structural, Hash)]
pub enum SharpshooterSkills {
    GigantarBowFenrir,
    AAGADeadeye,
}

impl SharpshooterSkills {
    pub open spec fn spec_id(self) -> u32 {
        match self {
            SharpshooterSkills::GigantarBowFenrir => 28260,
            SharpshooterSkills::AAGADeadeye => 28270,
        }
    }

    /// The skill id on the wire.
    pub fn id(self) -> (r: u32)
        ensures
            r == self.spec_id(),
    {
        match self {
            SharpshooterSkills::GigantarBowFenrir => 28260,
            SharpshooterSkills::AAGADeadeye => 28270,
        }
    }
}

#[derive(Debug, Clone, Copy, PartialEq, Eq, Structural, Hash)]
pub enum DeadeyeSkills {
    DeadlyCage,
    BlauerBlitz,
    JudgmentDay,
}

impl DeadeyeSkills {
    pub open spec fn spec_id(self) -> u32 {
        match self {
            DeadeyeSkills::DeadlyCage => 29360,
            DeadeyeSkills::BlauerBlitz => 29370,
            DeadeyeSkills::JudgmentDay => 29300,
        }
    }

    /// The skill id on the wire.
    pub fn id(self) -> (r: u32)
        ensures
            r == self.spec_id(),
    {
        match self {
            DeadeyeSkills::DeadlyCage => 29360,
            DeadeyeSkills::BlauerBlitz => 29370,
            DeadeyeSkills::JudgmentDay => 29300,
        }
    }
}

#[derive(Debug, Clone, Copy, PartialEq, Eq, Structural, Hash)]
pub enum ArtilleristSkills {
    ACOMBombardmentSupport,
    ACOMAttack,
    BarrageFocusFire,
}

impl ArtilleristSkills {
    pub open spec fn spec_id(self) -> u32 {
        match self {
            ArtilleristSkills::ACOMBombardmentSupport => 30320,
            ArtilleristSkills::ACOMAttack => 30330,
            ArtilleristSkills::BarrageFocusFire => 30260,
        }
    }

    /// The skill id on the wire.
    pub fn id(self) -> (r: u32)
        ensures
            r == self.spec_id(),
    {
        match self {
            ArtilleristSkills::ACOMBombardmentSupport => 30320,
            ArtilleristSkills::ACOMAttack => 30330,
            ArtilleristSkills::BarrageFocusFire => 30260,
        }
    }
}

#[derive(Debug, Clone, Copy, PartialEq, Eq, Structural, Hash)]
pub enum MachinistSkills {
    BattleshipOperation,
    AirStrike,
}

impl MachinistSkills {
    pub open spec fn spec_id(self) -> u32 {
        match self {
            MachinistSkills::BattleshipOperation => 35810,
            MachinistSkills::AirStrike => 35930,
        }
    }

    /// The skill id on the wire.
    pub fn id(self) -> (r: u32)
        ensures
            r == self.spec_id(),
    {
        match self {
            MachinistSkills::BattleshipOperation => 35810,
            MachinistSkills::AirStrike => 35930,
        }
    }
}

#[derive(Debug, Clone, Copy, PartialEq, Eq, Structural, Hash)]
pub enum GunslingerSkills {
    DeadEnd,
    AtomicExplosion,
    Sharpshooter,
}

impl GunslingerSkills {
    pub open spec fn spec_id(self) -> u32 {
        match self {
            GunslingerSkills::DeadEnd => 38320,
            GunslingerSkills::AtomicExplosion => 38330,
            GunslingerSkills::Sharpshooter => 38110,
        }
    }

    /// The skill id on the wire.
    pub fn id(self) -> (r: u32)
        ensures
            r == self.spec_id(),
    {
        match self {
            GunslingerSkills::DeadEnd => 38320,
            GunslingerSkills::AtomicExplosion => 38330,
            GunslingerSkills::Sharpshooter => 38110,
        }
    }
}

#[derive(Debug, Clone, Copy, PartialEq, Eq, Structural, Hash)]
pub enum AeromancerSkills {
    AkashasWave,
    KahnsTerritory,
    WindGimlet,
    PiercingWind,
}

impl AeromancerSkills {
    pub open spec fn spec_id(self) -> u32 {
        match self {
            AeromancerSkills::AkashasWave => 32290,
            AeromancerSkills::KahnsTerritory => 32300,
            AeromancerSkills::WindGimlet => 32250,
            AeromancerSkills::PiercingWind => 32260,
        }
    }

    /// The skill id on the wire.
    pub fn id(self) -> (r: u32)
        ensures
            r == self.spec_id(),
    {
        match self {
            AeromancerSkills::AkashasWave => 32290,
            AeromancerSkills::KahnsTerritory => 32300,
            AeromancerSkills::WindGimlet => 32250,
            AeromancerSkills::PiercingWind => 32260,
        }
    }
}

#[derive(Debug, Clone, Copy, PartialEq, Eq, Structural, Hash)]
pub enum WildsoulSkills {
    ForbiddenSorceryRippingBear,
    ForbiddenSorceryFoxStarRainstorm,
    SmackSmite,
    FoxFireDance,
}

impl WildsoulSkills {
    pub open spec fn spec_id(self) -> u32 {
        match self {
            WildsoulSkills::ForbiddenSorceryRippingBear => 33400,
            WildsoulSkills::ForbiddenSorceryFoxStarRainstorm => 33410,
            WildsoulSkills::SmackSmite => 33520,
            WildsoulSkills::FoxFireDance => 33530,
        }
    }

    /// The skill id on the wire.
    pub fn id(self) -> (r: u32)
        ensures
            r == self.spec_id(),
    {
        match self {
            WildsoulSkills::ForbiddenSorceryRippingBear => 33400,
            WildsoulSkills::ForbiddenSorceryFoxStarRainstorm => 33410,
            WildsoulSkills::SmackSmite => 33520,
            WildsoulSkills::FoxFireDance => 33530,
        }
    }
}

} // verus!
