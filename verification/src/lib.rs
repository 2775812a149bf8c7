//! Rules-resolution core of a turn-based, hex-grid tactical combat game.
//!
//! The engine maintains the authoritative state (position, health, stamina,
//! condition counters) of every combatant and resolves, step by step, what
//! happens when a combatant moves, attacks, or triggers a passive ability.
//! Every executable function is specified against a ghost functional model of
//! the engine and verified with Verus.

pub mod apply_area_effects;
pub mod cards;
pub mod character_filter;
pub mod data_model;
pub mod enum_map;
pub mod hex_grid;
pub mod items;
pub mod movement;
pub mod play;
pub mod play_state;
pub mod pop_ability;
pub mod precondition;
pub mod render_hex_grid;
pub mod resolve_action;
pub mod turn_stats;
