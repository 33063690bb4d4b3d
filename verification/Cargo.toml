[package]
name = "game_launcher"
version = "0.1.0"
edition = "2021"
publish = false

[dependencies]
sha2 = "*"
zip = { version = "*", default-features = false, features = ["deflate"] }
sysinfo = "*"
reqwest = { version = "*", default-features = false, features = ["blocking", "rustls-tls"] }
