[package]
name = "screm_counter"
version = "0.1.0"
edition = "2021"
publish = false

[dependencies]
axum = { version = "*", features = ["ws"] }
spmc = "*"
tokio = { version = "*", features = ["full"] }
twitch-irc = "*"
