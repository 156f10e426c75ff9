[package]
name = "media_organizer"
version = "0.1.0"
edition = "2021"
publish = false

[dependencies]
chrono = "0.4"
console = "0.15"
dtparse = "1"
glob = "0.3"
indicatif = "0.15"
kamadak-exif = "0.5"
structopt = "0.3"
