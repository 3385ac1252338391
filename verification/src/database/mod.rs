//! The bot's tables: its users, the mangas it follows, and who follows what.
pub mod client;
pub mod client_subscription;
pub mod manga;
