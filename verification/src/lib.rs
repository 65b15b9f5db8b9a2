//! Deterministic core rules of a turn-based card / monster battle game.
//!
//! Two sides deploy units onto fixed-size battlefields, attack along rule
//! driven lanes, and resolve damage through terrain and tier modifiers.  The
//! combat rules take their randomness from the caller as explicit
//! parameters, so every battle computation is replayable: the same inputs
//! always produce the same state.  Only the card pool's shuffle and the ids
//! of freshly minted monsters step outside that rule, and their contracts
//! claim nothing of the order or the ids beyond what holds of every outcome.

pub mod num;
pub mod text;
pub mod types;
pub mod error;
pub mod turn;
pub mod summon;
pub mod terrain;
pub mod monster;
pub mod combat;
pub mod effect;
pub mod card;
pub mod battlefield;
pub mod arena;
pub mod boss;
pub mod economy;
pub mod level_system;
pub mod profession;
pub mod season;
pub mod equipment;
pub mod inventory;
pub mod organization;
pub mod card_acquisition;
pub mod card_pool;
pub mod talent;
pub mod player;
pub mod battle;
pub mod merge;
pub mod graveyard;
pub mod tavern_shop;
pub mod map;
pub mod map_entity;
pub mod map_player;
pub mod map_templates;
pub mod equipment_templates;
pub mod talent_templates;
pub mod card_templates;
