//! Verified core logic of a rhythm game client: play modifiers, performance
//! profiles, play rules, scene-stack bookkeeping, text editing, menus and
//! screen decisions, chart, archive and resource-pack helpers, and the
//! chart service's addresses and messages.

pub mod achievement_order;
pub mod chart_format;
pub mod checksum;
pub mod chart_order;
pub mod config;
pub mod crash;
pub mod dialog;
pub mod gif;
pub mod hud;
pub mod judge_cache;
pub mod line_pass;
pub mod mentions;
pub mod mods;
pub mod note_buffer;
pub mod parallel;
pub mod pause_view;
pub mod play_rules;
pub mod record;
pub mod res_pack;
pub mod scene_stack;
pub mod setup_wizard;
pub mod size_format;
pub mod song_events;
pub mod song_menu;
pub mod strings;
pub mod text_edit;
pub mod texture;
pub mod xcsim;
pub mod zip_paths;
