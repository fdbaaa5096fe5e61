pub mod base;
pub mod critic;
pub mod data_ingestion;
pub mod friends;
pub mod game;
pub mod group;
pub mod messages;
pub mod platform;
pub mod recipe;
