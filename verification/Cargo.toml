[package]
name = "insights_core_updater"
version = "0.1.0"
edition = "2021"
publish = false

[dependencies]
log = "0.4"
simplelog = "0.12"
reqwest = { version = "0.12", default-features = false }
tokio = { version = "1", features = ["macros", "rt-multi-thread"] }
