[package]
name = "mpdnd"
version = "0.1.0"
edition = "2021"
publish = false

[dependencies]
confy = "*"
dirs = "*"
mpd = "*"
notify-rust = "*"
serde = { version = "1", features = ["derive"] }
