[package]
name = "lyvoxa"
version = "0.1.0"
edition = "2021"
publish = false

[dependencies]
async-trait = "0.1"
chrono = "0.4"
crossterm = "0.28"
humansize = "2"
libc = "0.2"
nix = { version = "0.29", features = ["signal", "resource"] }
procfs = "0.16"
rand = "0.8"
ratatui = "0.29"
serde = { version = "1", features = ["derive"] }
sysinfo = "0.29"
tokio = { version = "1", features = ["macros", "rt-multi-thread", "time"] }
toml = "0.8"
