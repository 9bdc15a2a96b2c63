[package]
name = "vimrs"
version = "0.1.0"
edition = "2021"
publish = false

[dependencies]
ropey = { version = "1", default-features = false }
anyhow = "1"
log = "0.4"
fern = "0.6"
chrono = "0.4"
crossterm = "0.27"
