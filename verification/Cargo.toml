[package]
name = "music_player_rs"
version = "0.1.0"
edition = "2021"
publish = false

[dependencies]
clap = "2"
dirs = "*"
gtk = "*"
id3 = "*"
log = "0.4"
simplelog = "*"
sqlite = "*"
