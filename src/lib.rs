pub mod advanced;
pub mod combatant;
pub mod common;
pub mod decimal;
pub mod enums;
pub mod error;
pub mod events;
pub mod guid;
pub mod laws;
pub mod prefixes;
pub mod primitives;
pub mod special;
pub mod suffixes;
pub mod text;
pub mod timestamp;
