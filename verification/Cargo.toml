[package]
name = "tile_gateway"
version = "0.1.0"
edition = "2021"
publish = false

[dependencies]
axum = "0.7"
bytes = "1"
include_dir = "0.7"
serde = { version = "1", features = ["derive"] }
sqlx = { version = "0.7", default-features = false, features = ["runtime-tokio", "postgres", "json"] }
tokio = { version = "1", features = ["full"] }
tower-serve-static = "*"
