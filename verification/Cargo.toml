[package]
name = "lycan"
version = "0.1.0"
edition = "2021"
publish = false

[dependencies]
bodyparser = "*"
iron = "*"
mio = { version = "*", features = ["os-poll"] }
nalgebra = "*"
plugin = "*"
router = "*"
serde = { version = "*", features = ["derive"] }
serde_json = "*"
