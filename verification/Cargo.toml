[package]
name = "manga_notifier"
version = "0.1.0"
edition = "2021"
publish = false

[dependencies]
dptree = "=0.3.0"
reqwest = { version = "=0.11.27", default-features = false, features = ["json", "rustls-tls"] }
rusqlite = { version = "=0.31.0", features = ["bundled"] }
serde = { version = "=1.0.229", features = ["derive"] }
# Used by teloxide-core; held at 0.1.1 because takecell 0.1.2 needs Rust 1.96.
takecell = "=0.1.1"
teloxide = { version = "=0.12.2", default-features = false, features = ["macros", "rustls", "ctrlc_handler"] }
tokio = { version = "=1.54.1", features = ["rt-multi-thread", "macros"] }
