[package]
name = "wallpaperflix"
version = "0.1.0"
edition = "2021"
publish = false

[dependencies]
rand = "0.8"
serde = { version = "1", features = ["derive"] }
serde_json = "1"
toml = "0.8"
confy = "0.6"
dirs = "5"
open = "5"
clokwerk = "0.4"
wallpaper = "3"
tokio = { version = "1", features = ["rt-multi-thread", "macros", "time"] }
reqwest = { version = "0.11", default-features = false, features = ["json"] }
