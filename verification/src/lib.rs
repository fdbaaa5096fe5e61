//! Business rules of a recipes-and-videogames platform: pagination sessions,
//! recipe search and ingestion, critic applications, friendship and messaging,
//! groups, games and platforms.
//!
//! Identifiers are carried as the 128-bit value of a UUID and instants as
//! microseconds since the Unix epoch; the I/O around these rules (database,
//! cache, HTTP) is driven from outside this crate.

pub mod ids;

pub mod text;
pub mod features;
pub mod time;
pub mod ingredients;
pub mod ordering;
