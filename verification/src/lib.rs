//! Combat resolution engine for a small role-playing game: the combatant data
//! model, the turn-by-turn resolution algorithm with its rubber-banding
//! "negative feedback" mechanic, the combat state machine, and weighted loot
//! drop resolution.

pub mod combat;
pub mod data_enemies;
pub mod drops;
mod rng;
