[package]
name = "compactveteran"
version = "0.1.0"
edition = "2021"
publish = false

[dependencies]
serde = { version = "1", features = ["derive"] }
serde_json = "1"
sha2 = "0.10"
toml_edit = "0.22"
libc = "0.2"
