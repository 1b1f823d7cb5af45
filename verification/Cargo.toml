[package]
name = "white_rabbit"
version = "0.1.0"
edition = "2021"
publish = false

[dependencies]
uuid = { version = "1", features = ["v4", "serde"] }
base64 = "0.13"
rust_decimal = "1"
chrono = "0.4"
sea-orm = { version = "0.12", default-features = false, features = ["macros", "with-uuid", "with-rust_decimal", "with-chrono", "with-json"] }
sea-orm-migration = { version = "0.12", default-features = false }
serde = { version = "1", features = ["derive"] }
serde_json = "1"
anyhow = "1"
async-trait = "0.1"
futures = "0.3"
thiserror = "1"
