//! The shapes of the MangaDex API's answers that the bot reads.
pub mod manga_types;
