[package]
name = "ledboard"
version = "0.1.0"
edition = "2021"
publish = false

[dependencies]
serde_json = "=1.0.151"
serde = { version = "*", features = ["derive"] }
log = "*"
env_logger = "*"
toml = "*"
sysinfo = "*"
battery = "*"
signal-hook = "*"
sd-notify = "*"
wasmer-compiler-singlepass = "=6.1.0"

[dependencies.wasmer]
version = "=6.1.0"
default-features = false
features = ["sys", "singlepass", "wat"]

[dependencies.serialport]
version = "*"
default-features = false
