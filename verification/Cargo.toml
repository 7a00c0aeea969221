[package]
name = "playlist_sync"
version = "0.1.0"
edition = "2021"
publish = false

[dependencies]
gtk = "0.9"
gio = "0.9"
gladis = "*"
