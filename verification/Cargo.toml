[package]
name = "vid_compress"
version = "0.1.0"
edition = "2021"
publish = false

[dependencies]
clap = { version = "4", features = ["derive"] }
reqwest = { version = "0.12", features = ["blocking"] }
tempfile = "3"
walkdir = "2"
which = "6"
zip = { version = "2", default-features = false, features = ["deflate"] }
