//! Combat-encounter state reconstruction: entities, incapacitation timelines,
//! skill ledgers, status effects and damage attribution.

pub mod attribution;
pub mod class_skills;
pub mod combat_effect;
pub mod credit;
pub mod encounter_entity;
pub mod entity;
pub mod incapacitation;
pub mod misc;
pub mod player;
pub mod session;
pub mod settings;
pub mod skill;
pub mod stats;
pub mod stats_api;
pub mod status_effect;
pub mod summary;
pub mod utils;

pub use incapacitation::{IncapacitatedEvent, IncapacitationEventType};
