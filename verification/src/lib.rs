//! A Telegram bot that tells its users when a new chapter of a manga on
//! their reading list is out: the dialogue, the messages it answers with,
//! the requests it builds for the MangaDex API and the decisions it takes
//! on its database.
pub mod text;
pub mod data_types;
pub mod manga_info_getter;
pub mod database;
pub mod polling;
pub mod handlers;
