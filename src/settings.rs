//! User settings. The engine has no configuration of its own: these are
//! read by the capture and display layers.
use vstd::prelude::*;

verus! {

#[derive(Debug, Clone, Default, PartialEq, Eq)]
pub struct Settings {
    pub general: GeneralSettings,
    pub shortcuts: Shortcuts,
    pub meter: MeterTabs,
    pub logs: LogTabs,
    pub buffs: BuffSettings,
    pub sync: SyncSettings,
}

#[derive(Debug, Clone, Default, PartialEq, Eq)]
pub struct GeneralSettings {
    pub start_loa_on_start: bool,
    pub low_performance_mode: bool,
    pub show_names: bool,
    pub show_gear_score: bool,
    pub hide_names: bool,
    pub show_esther: bool,
    pub show_date: bool,
    pub show_difficulty: bool,
    pub show_gate: bool,
    pub split_lines: bool,
    pub underline_hovered: bool,
    pub show_details: bool,
    pub show_shields: bool,
    pub show_tanked: bool,
    pub show_bosses: bool,
    pub hide_logo: bool,
    pub accent_color: String,
    pub raw_socket: bool,
    pub auto_iface: bool,
    pub if_desc: String,
    pub ip: String,
    pub port: u16,
    pub blur: bool,
    pub blur_win11: bool,
    pub transparent: bool,
    pub scale: String,
    pub log_scale: String,
    pub always_on_top: bool,
    pub boss_only_damage: bool,
    pub keep_favorites: bool,
    pub hide_meter_on_start: bool,
    pub hide_logs_on_start: bool,
    pub constant_local_player_color: bool,
    pub boss_only_damage_default_on: bool,
    pub start_on_boot: bool,
    pub logs_per_page: i32,
}

#[derive(Debug, Clone, Default, PartialEq, Eq)]
pub struct Shortcuts {
    pub hide_meter: Shortcut,
    pub show_logs: Shortcut,
    pub show_latest_encounter: Shortcut,
    pub reset_session: Shortcut,
    pub pause_session: Shortcut,
    pub manual_save: Shortcut,
    pub disable_clickthrough: Shortcut,
}

#[derive(Debug, Clone, Default, PartialEq, Eq)]
pub struct Shortcut {
    pub modifier: String,
    pub key: String,
}

#[derive(Debug, Clone, Default, PartialEq, Eq)]
pub struct LogTabs {
    pub abbreviate_header: bool,
    pub split_party_damage: bool,
    pub split_party_buffs: bool,
    pub damage: bool,
    pub dps: bool,
    pub damage_percent: bool,
    pub death_time: bool,
    pub incapacitated_time: bool,
    pub crit_rate: bool,
    pub crit_dmg: bool,
    pub front_atk: bool,
    pub back_atk: bool,
    pub percent_buff_by_sup: bool,
    pub percent_identity_by_sup: bool,
    pub percent_brand: bool,
    pub percent_hat_by_sup: bool,
    pub positional_dmg_percent: bool,
    pub counters: bool,
    pub min_encounter_duration: i32,
    pub rdps_split_party: bool,
    pub rdps_damage_given: bool,
    pub rdps_damage_received: bool,
    pub rdps_contribution: bool,
    pub rdps_s_contribution: bool,
    pub rdps_d_contribution: bool,
    pub rdps_syn: bool,
    pub rdps_s_syn: bool,
    pub rdps_d_syn: bool,
    pub ssyn: bool,
    pub breakdown: BreakdownTabs,
}

#[derive(Debug, Clone, Default, PartialEq, Eq)]
pub struct MeterTabs {
    pub boss_hp: bool,
    pub boss_hp_bar: bool,
    pub split_boss_hp_bar: bool,
    pub abbreviate_header: bool,
    pub show_time_until_kill: bool,
    pub show_class_colors: bool,
    pub split_party_buffs: bool,
    pub pin_self_party: bool,
    pub damage: bool,
    pub dps: bool,
    pub damage_percent: bool,
    pub death_time: bool,
    pub incapacitated_time: bool,
    pub crit_rate: bool,
    pub crit_dmg: bool,
    pub front_atk: bool,
    pub back_atk: bool,
    pub percent_brand: bool,
    pub percent_buff_by_sup: bool,
    pub percent_identity_by_sup: bool,
    pub percent_hat_by_sup: bool,
    pub positional_dmg_percent: bool,
    pub counters: bool,
    pub rdps_split_party: bool,
    pub rdps_damage_given: bool,
    pub rdps_damage_received: bool,
    pub rdps_contribution: bool,
    pub rdps_s_contribution: bool,
    pub rdps_d_contribution: bool,
    pub rdps_syn: bool,
    pub rdps_s_syn: bool,
    pub rdps_d_syn: bool,
    pub ssyn: bool,
    pub breakdown: BreakdownTabs,
}

#[derive(Debug, Clone, Default, PartialEq, Eq)]
pub struct BreakdownTabs {
    pub damage: bool,
    pub dps: bool,
    pub damage_percent: bool,
    pub crit_rate: bool,
    pub crit_dmg: bool,
    pub front_atk: bool,
    pub back_atk: bool,
    pub percent_buff_by_sup: bool,
    pub percent_identity_by_sup: bool,
    pub percent_hat_by_sup: bool,
    pub percent_brand: bool,
    pub avg_damage: bool,
    pub max_damage: bool,
    pub casts: bool,
    pub cpm: bool,
    pub hits: bool,
    pub hpm: bool,
}

#[derive(Debug, Clone, Default, PartialEq, Eq)]
pub struct BuffSettings {
    pub default: bool,
}

#[derive(Debug, Clone, Default, PartialEq, Eq)]
pub struct SyncSettings {
    pub enabled: bool,
    pub access_token: String,
    pub auto: bool,
    pub username: String,
    pub valid_token: bool,
    pub visibility: String,
}

} // verus!
