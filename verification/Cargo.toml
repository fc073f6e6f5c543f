[package]
name = "maze_wars"
version = "0.1.0"
edition = "2021"
publish = false

[dependencies]
rand = "0.8"
renet = "0.0.14"
bincode = "1.3"
serde = { version = "1", features = ["derive"] }
local-ip-address = "*"
