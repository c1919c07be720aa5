[package]
name = "reaction_game"
version = "0.1.0"
edition = "2021"
publish = false

[dependencies]
js-sys = "0.3"
log = "0.4"
web-sys = { version = "0.3", features = ["HtmlAudioElement"] }
yew = { version = "0.17", features = ["web_sys"] }
