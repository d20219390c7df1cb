[package]
name = "estacio_completer"
version = "0.1.0"
edition = "2021"
publish = false

[dependencies]
serde = { version = "*", features = ["derive"] }
toml = "*"
reqwest = { version = "*", default-features = false, features = ["json"] }
tokio = { version = "*", features = ["rt-multi-thread", "macros", "time"] }
cliclack = "*"
console = "*"
color-eyre = "*"
