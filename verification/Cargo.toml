[package]
name = "charon_macros"
version = "0.1.0"
edition = "2021"
publish = false

[dependencies]
take_mut = "0.2"
syn = { version = "1", features = ["full"] }
serde = { version = "1", features = ["derive"] }
toml = "0.5"
