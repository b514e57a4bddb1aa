[package]
name = "game_catalog"
version = "0.1.0"
edition = "2021"
publish = false

[dependencies]
elementtree = "*"
sqlx = { version = "*", default-features = false, features = ["runtime-tokio", "sqlite", "migrate"] }
tokio = { version = "*", features = ["macros", "rt-multi-thread"] }
