//! The typed documents of a replay: battle info and battle results.
use std::collections::HashMap;

pub use crate::envelope::{DataChunk, RawReplay};
pub use crate::extract::Replay;

use crate::dictionaries::{DeathReason, FinishReason};
use crate::timestamp::UtcDateTime;
use vstd::prelude::*;

verus! {

/// serde_json's `Value`: sub-documents that the schema carries verbatim, uninterpreted.
#[verifier::external_type_specification]
#[verifier::external_body]
pub struct ExJsonValue(serde_json::Value);

/// One vehicle of the battle roster, as the battle-info document lists it.
#[derive(Debug)]
pub struct VehicleInfo {
    pub wtr: u32,
    pub vehicle_type: String,
    pub is_alive: u8,
    pub personal_missions_ids: Vec<u32>,
    pub forbid_in_battle_invitations: bool,
    pub fake_name: String,
    pub max_health: u32,
    pub igr_type: u32,
    pub clan_abbrev: String,
    pub ranked: Vec<u32>,
    pub is_team_killer: u8,
    pub team: u8,
    pub overridden_badge: u32,
    pub avatar_session_id: String,
    pub badges: Vec<Vec<u32>>,
    pub name: String,
}

/// The battle-info document: session metadata and the roster of vehicles.
#[derive(Debug)]
pub struct BattleInfo {
    pub player_vehicle: String,
    pub client_version_from_xml: String,
    pub client_version_from_exe: String,
    pub region_code: String,
    pub server_name: String,
    pub map_name: String,
    pub map_display_name: String,
    pub server_settings: serde_json::Value,
    pub gameplay_id: String,
    pub battle_type: u16,
    pub has_mods: bool,
    pub date_time: UtcDateTime,
    pub player_id: u64,
    pub player_name: String,
    pub vehicles: HashMap<String, VehicleInfo>,
}

/// Aggregate results of one player avatar.
#[derive(Debug)]
pub struct AvatarResults {
    pub avatar_kills: u16,
    pub player_rank: u16,
    pub base_points_diff: u32,
    pub has_battle_pass: bool,
    pub avatar_damaged: u16,
    pub total_damaged: u16,
    pub avatar_damage_dealt: u32,
    pub sum_points: u32,
    pub fairplay_violations: Vec<i32>,
    pub badges: Vec<Vec<u16>>,
}

/// The recording player's own avatar results.
#[derive(Debug)]
pub struct PersonalAvatarResults {
    pub base_points_diff: u32,
    pub avatar_damage_dealt: u32,
    pub bpcoin_replay: Option<u32>,
    pub credits_replay: Option<u32>,
    pub free_xp_replay: Option<u32>,
    pub sum_points: u32,
    pub fairplay_violations: Vec<i32>,
    pub event_bpcoin: u32,
    pub badges: Vec<Vec<u16>>,
    pub active_rents: HashMap<String, u32>,
    pub event_free_xp: u32,
    pub event_credits: u32,
    pub xp_replay: Option<u32>,
    pub crystal: u32,
    pub damage_event_list: Option<serde_json::Value>,
    pub eligible_for_crystal_rewards: bool,
    pub dog_tags: serde_json::Value,
    pub is_premature_leave: bool,
    pub squad_bonus_info: Option<serde_json::Value>,
    pub winner_if_draw: u8,
    pub free_xp: u32,
    pub avatar_kills: u16,
    pub event_t_men_xp: u16,
    pub recruits_ids: Vec<serde_json::Value>,
    pub avatar_damage_event_list: Option<serde_json::Value>,
    pub pm2_progress: serde_json::Value,
    pub has_battle_pass: bool,
    pub total_damaged: u16,
    pub gold_replay: Option<serde_json::Value>,
    pub event_crystal: u16,
    pub event_gold: u32,
    pub tmen_xp_replay: Option<serde_json::Value>,
    pub event_coin_replai: Option<serde_json::Value>,
    pub quests_progress: serde_json::Value,
    pub account_db_id: u64,
    pub avatar_ammo: Vec<serde_json::Value>,
    pub fare_team_xp_position: u16,
    pub event_xp: u16,
    pub fort_clan_db_ids: Vec<serde_json::Value>,
    pub xp: u16,
    pub player_rank: u16,
    pub avatar_damaged: u16,
    pub recruiter_id: u64,
    pub progressive_reward: Option<serde_json::Value>,
    pub crystal_replay: Option<serde_json::Value>,
    pub rank_change: u32,
    pub team: u8,
    pub clan_db_id: Option<u64>,
    pub credits: i64,
    pub event_event_coin: u64,
    pub watched_battle_to_the_end: bool,
    pub fl_xp_replay: Option<serde_json::Value>,
}

/// What one vehicle did in the battle.
#[derive(Debug)]
pub struct VehicleResult {
    pub spotted: u8,
    pub vehicle_num_captured: u16,
    pub damage_assisted_track: u32,
    pub xp_penalty: i32,
    pub direct_team_hits: u32,
    pub damage_received: u32,
    pub sniper_damage_dealt: u32,
    pub piercing_enemy_hits: u16,
    pub damage_assisted_radio: u32,
    pub mileage: u32,
    /// The IEEE-754 single-precision bits of the stun duration, in seconds.
    pub stun_duration_bits: u32,
    pub piercings: u16,
    pub damage_blocked_by_armor: u32,
    pub xp: u32,
    pub dropped_capture_points: u16,
    pub killer_id: u64,
    pub xp_other: u32,
    pub index: u32,
    pub direct_hits_received: u32,
    pub damage_received_from_invisibles: u32,
    pub explosion_hits_received: u32,
    pub achievement_xp: u32,
    pub death_reason: DeathReason,
    pub capture_points: u32,
    pub num_recovered: u16,
    pub direct_enemy_hits: u32,
    pub max_health: u32,
    pub damage_event_list: Option<serde_json::Value>,
    pub health: i32,
    pub stop_respawn: bool,
    pub achievement_credits: u32,
    pub achievements: Vec<u16>,
    pub xp_assist: u32,
    pub shots: u32,
    pub kills: u16,
    pub death_count: u16,
    pub flag_capture: u32,
    pub damaged: u16,
    pub tdamage_dealt: u32,
    pub resource_absorbed: u32,
    pub credits: u32,
    pub account_db_id: u64,
    pub life_time: u64,
    pub no_damage_direct_hits_received: u16,
    pub num_defended: u32,
    pub stunned: u16,
    pub equipment_damage_dealt: u32,
    pub is_team_killer: bool,
    pub type_comp_descr: u32,
    pub solo_flag_capture: u32,
    pub destructibles_hits: u32,
    pub capturing_base: Option<serde_json::Value>,
    pub damage_assisted_stun: u32,
    pub rollouts_count: u32,
    pub tkills: u16,
    pub potential_damage_received: u32,
    pub damage_dealt: u32,
    pub destructibles_num_destroyed: u32,
    pub damage_assisted_smoke: u32,
    pub destructibles_damage_dealt: u32,
    pub flag_actions: [u32; 4],
    pub win_points: u32,
    pub explosion_hits: u32,
    pub team: u8,
    pub xp_attack: u32,
    pub tdestroyed_modules: u32,
    pub stun_num: u32,
    pub damage_assisted_inspire: u32,
    pub achievement_free_xp: u32,
    pub direct_hits: u32,
}

/// The recording player's own results.
#[derive(Debug)]
pub struct PersonalBattleResults {
    pub avatar: PersonalAvatarResults,
}

/// One entry of the player roster of the results.
#[derive(Debug)]
pub struct PlayerInfo {
    pub name: String,
    pub prebattle_id: u64,
    pub igr_type: u32,
    pub clan_abbrev: String,
    pub team: u8,
    pub clan_dbid: u64,
    pub real_name: String,
}

/// Arena-level outcome of the battle.
#[derive(Debug)]
pub struct CommonBattleInfo {
    pub division: Option<u32>,
    pub finish_reason: FinishReason,
    pub gui_type: u32,
    pub common_num_defended: u32,
    pub common_num_captured: u32,
    pub common_num_started: u32,
    pub arena_create_time: u128,
    pub common_num_destroyed: u32,
    pub duration: u32,
    pub team_health: HashMap<String, u32>,
    pub arena_type_id: u32,
    pub gas_attack_winner_team: i32,
    pub winner_team: u16,
    pub veh_lock_mode: u16,
    pub bonus_type: u16,
    pub bots: serde_json::Value,
    pub account_comp_descr: Option<serde_json::Value>,
}

/// The first results document: the arena outcome and per-vehicle records.
#[derive(Debug)]
pub struct GeneralBattleResults {
    pub arena_unique_id: u64,
    pub personal: PersonalBattleResults,
    pub vehicles: HashMap<String, Vec<VehicleResult>>,
    pub avatars: HashMap<String, AvatarResults>,
    pub players: HashMap<String, PlayerInfo>,
    pub common: CommonBattleInfo,
}

/// The per-player record of the second results document.
#[derive(Debug)]
pub struct PlayerResults {
    pub wtr: u32,
    pub vehicle_type: String,
    pub is_alive: bool,
    pub personal_mission_ids: Vec<u32>,
    pub personal_mission_info: HashMap<String, Vec<u32>>,
    pub forbid_in_battle_invitations: bool,
    pub fake_name: String,
    pub max_health: u32,
    pub igr_type: u32,
    pub clan_abbrev: String,
    pub ranked: Vec<u32>,
    pub is_team_killer: u8,
    pub team: u8,
    pub events: HashMap<String, serde_json::Value>,
    pub overridden_badge: u32,
    pub avatar_session_id: String,
    pub badges: Vec<Vec<u32>>,
    pub name: String,
}

/// The frag count of one player.
#[derive(Debug)]
pub struct PlayerFrags {
    pub frags: u8,
}

/// The frag counts of the second results document, keyed by player.
pub type Frags = HashMap<String, PlayerFrags>;

/// The per-player records of the second results document.
pub type PlayersResults = HashMap<String, PlayerResults>;

/// The three results documents, decoded from one three-element array.
#[derive(Debug)]
pub struct BattleResults {
    pub general: GeneralBattleResults,
    pub players: PlayersResults,
    pub frags: Frags,
}

} // verus!
