[package]
name = "pdmake"
version = "0.1.0"
edition = "2021"
publish = false

[dependencies]
anyhow = "*"
clap = { version = "*", features = ["derive"] }
crc32fast = "*"
duct = "*"
glob = "*"
log = "*"
mlua = { version = "*", features = ["lua54", "vendored"] }
ron = "*"
serde = { version = "*", features = ["derive"] }
simple_logger = "*"
stylua = "*"
toml = "*"
