//! Small records shared by the decoder and the engine.
use vstd::prelude::*;

verus! {

/// One damage packet as the decoder hands it over.
#[derive(Debug, Clone, Copy, PartialEq, Eq, Structural)]
pub struct DamageData {
    pub skill_id: u32,
    pub skill_effect_id: u32,
    pub damage: i64,
    pub modifier: i32,
    pub target_current_hp: i64,
    pub target_max_hp: i64,
    pub damage_attribute: Option<u8>,
    pub damage_type: u8,
}

#[derive(Debug, Clone, Copy, Default, PartialEq, Eq, Structural)]
pub struct Identity {
    pub gauge1: u32,
    pub gauge2: u32,
    pub gauge3: u32,
}

#[derive(Debug, Clone, Copy, Default, PartialEq, Eq, Structural)]
pub struct Stagger {
    pub current: u32,
    pub max: u32,
}

#[derive(Debug, Clone, Default, PartialEq, Eq)]
pub struct LocalPlayer {
    pub name: String,
    pub count: i32,
}

/// Where a hit landed relative to the target.
#[derive(Debug, Clone, Copy, PartialEq, Eq, Structural)]
pub enum HitOption {
    NoOption,
    BackAttack,
    FrontalAttack,
    FlankAttack,
    Max,
}

impl HitOption {
    pub open spec fn spec_from_value(v: i32) -> Option<HitOption> {
        if v == 0 {
            Some(HitOption::NoOption)
        } else if v == 1 {
            Some(HitOption::BackAttack)
        } else if v == 2 {
            Some(HitOption::FrontalAttack)
        } else if v == 3 {
            Some(HitOption::FlankAttack)
        } else if v == 4 {
            Some(HitOption::Max)
        } else {
            None
        }
    }

    /// The option with wire value `v` (0 to 4), if any.
    pub fn from_value(v: i32) -> (r: Option<HitOption>)
        ensures
            r == Self::spec_from_value(v),
    {
        if v == 0 {
            Some(HitOption::NoOption)
        } else if v == 1 {
            Some(HitOption::BackAttack)
        } else if v == 2 {
            Some(HitOption::FrontalAttack)
        } else if v == 3 {
            Some(HitOption::FlankAttack)
        } else if v == 4 {
            Some(HitOption::Max)
        } else {
            None
        }
    }
}

/// How a hit resolved.
#[derive(Debug, Clone, Copy, PartialEq, Eq, Structural)]
pub enum HitFlag {
    Normal,
    Critical,
    Miss,
    Invincible,
    DamageOverTime,
    Immune,
    ImmuneSilenced,
    FontSilence,
    DamageOverTimeCritical,
    Dodge,
    Reflect,
    DamageShare,
    DodgeHit,
    Max,
}

impl HitFlag {
    /// The flags in wire order: flag `v` is the `v`-th.
    pub open spec fn all() -> Seq<HitFlag> {
        seq![
            HitFlag::Normal,
            HitFlag::Critical,
            HitFlag::Miss,
            HitFlag::Invincible,
            HitFlag::DamageOverTime,
            HitFlag::Immune,
            HitFlag::ImmuneSilenced,
            HitFlag::FontSilence,
            HitFlag::DamageOverTimeCritical,
            HitFlag::Dodge,
            HitFlag::Reflect,
            HitFlag::DamageShare,
            HitFlag::DodgeHit,
            HitFlag::Max,
        ]
    }

    /// The flag with wire value `v` (0 to 13), if any.
    pub fn from_value(v: i32) -> (r: Option<HitFlag>)
        ensures
            r == (if 0 <= v < 14 {
                Some(Self::all()[v as int])
            } else {
                None
            }),
    {
        match v {
            0 => Some(HitFlag::Normal),
            1 => Some(HitFlag::Critical),
            2 => Some(HitFlag::Miss),
            3 => Some(HitFlag::Invincible),
            4 => Some(HitFlag::DamageOverTime),
            5 => Some(HitFlag::Immune),
            6 => Some(HitFlag::ImmuneSilenced),
            7 => Some(HitFlag::FontSilence),
            8 => Some(HitFlag::DamageOverTimeCritical),
            9 => Some(HitFlag::Dodge),
            10 => Some(HitFlag::Reflect),
            11 => Some(HitFlag::DamageShare),
            12 => Some(HitFlag::DodgeHit),
            13 => Some(HitFlag::Max),
            _ => None,
        }
    }

    /// Whether the hit was critical.
    pub fn is_critical(&self) -> (r: bool)
        ensures
            r == (*self == HitFlag::Critical || *self == HitFlag::DamageOverTimeCritical),
    {
        *self == HitFlag::Critical || *self == HitFlag::DamageOverTimeCritical
    }
}

#[derive(Debug, Clone, Default)]
pub struct SkillFeatureOption {
    pub effect_type: String,
    pub level: u16,
    pub param_type: String,
    pub param: Vec<i32>,
}

#[derive(Debug, Clone, Default)]
pub struct PassiveOption {
    pub option_type: String,
    pub key_stat: String,
    pub key_index: i32,
    pub value: i32,
}

} // verus!
