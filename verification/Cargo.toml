[package]
name = "playfair_core"
version = "0.1.0"
edition = "2021"
publish = false

[dependencies]
aes = "0.8"
argon2 = "0.5"
base64 = "0.22"
cbc = { version = "0.1", features = ["alloc"] }
clap = { version = "4", features = ["derive"] }
hex = "0.4"
hmac = "0.12"
memmap2 = "0.9"
napi = "2"
napi-derive = { version = "2", features = ["compat-mode"] }
obfstr = "0.4"
rand = "0.8"
reqwest = { version = "0.11", features = ["blocking"] }
sha2 = "0.10"
url = "2"
