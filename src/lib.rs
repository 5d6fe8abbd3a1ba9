//! A turn-based battle engine for two rosters of creatures.
//!
//! The engine is a phase state machine that sequences each turn, an effect
//! resolver that applies declarative effect commands to the battle state, and
//! the calculations (stats, damage, type matchups, status interference) that
//! produce those effects.

pub mod bounded_i32;
pub mod calc;
pub mod chance;
pub mod effect;
pub mod game;
pub mod moves;
pub mod player;
pub mod pokemon;
pub mod poketype;
pub mod preset;
pub mod selvec;
pub mod stat;
pub mod status;
pub mod trigger;
