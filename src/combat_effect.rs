//! Reference data of combat effects: conditions and actions.
use vstd::prelude::*;

verus! {

#[derive(Debug, Clone, Default)]
pub struct CombatEffectData {
    pub effects: Vec<CombatEffectDetail>,
}

#[derive(Debug, Clone, Default)]
pub struct CombatEffectDetail {
    pub ratio: i32,
    pub cooldown: i32,
    pub conditions: Vec<CombatEffectCondition>,
    pub actions: Vec<CombatEffectAction>,
}

#[derive(Debug, Clone, Default)]
pub struct CombatEffectCondition {
    pub condition_type: String,
    pub actor_type: String,
    pub arg: i32,
}

#[derive(Debug, Clone, Default)]
pub struct CombatEffectAction {
    pub action_type: String,
    pub actor_type: String,
    pub args: Vec<i32>,
}

} // verus!
