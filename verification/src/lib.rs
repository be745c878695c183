//! Parsing of World of Warcraft (vanilla) combat log lines into live-data
//! messages, the message model that the parser produces, the byte mapping of
//! raw event payloads, and the assembly of spell tooltips from the static data
//! store.

pub mod hit_type;
pub mod dto;
pub mod message_type;
pub mod payload;
pub mod text;
pub mod data;
pub mod tooltip;
pub mod numbers;
pub mod units;
pub mod trailer;
pub mod regex_bridge;
pub mod state;
pub mod school;
pub mod patterns;
pub mod line_spec;
pub mod handlers;
pub mod line_handlers;
pub mod text_split;
pub mod combatant;
pub mod parser;
pub mod guarded;
pub mod pets;
pub mod post;
pub mod character;
pub mod getters;
pub mod laws;
pub mod combatant_law;
pub mod tables;
