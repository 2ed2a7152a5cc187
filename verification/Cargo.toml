[package]
name = "bp3d_build"
version = "0.1.0"
edition = "2021"
publish = false

[dependencies]
cargo_toml = "=0.20.5"
clap = { version = "=4.6.7", features = ["derive"] }
copy_dir = "=0.1.3"
current_platform = "=0.2.0"
mlua = { version = "=0.9.9", features = ["lua54", "vendored"] }
serde = { version = "=1.0.229", features = ["derive"] }
toml = { version = "=0.8.23", features = ["preserve_order"] }
