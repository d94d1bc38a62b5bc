[package]
name = "ruby_flasher"
version = "0.1.0"
edition = "2021"
publish = false

[dependencies]
anyhow = "*"
async-trait = "*"
env_logger = "*"
fltk = "*"
fltk-theme = "*"
log = "*"
russh = "*"
rust-embed = "*"
tokio = { version = "*", features = ["full"] }
winapi = { version = "*", features = ["wincon"] }
winreg = "*"
