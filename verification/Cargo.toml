[package]
name = "refix"
version = "0.1.0"
edition = "2021"
publish = false

[dependencies]
serde_json = "=1.0.151"
reqwest = { version = "=0.12.28", default-features = false, features = ["blocking", "json"] }
arboard = { version = "=3.6.1", default-features = false }
enigo = { version = "=0.1.3", default-features = false }
global-hotkey = { version = "=0.5.5", default-features = false }
