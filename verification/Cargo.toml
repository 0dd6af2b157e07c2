[package]
name = "vit_servicing_station"
version = "0.1.0"
edition = "2021"
publish = false

[dependencies]
csv = "1"
serde = { version = "1", features = ["derive"] }
structopt = "0.3"
thiserror = "1"
diesel = { version = "1.4", features = ["sqlite", "r2d2"] }
diesel_migrations = "1.4"
warp = { version = "0.3", default-features = false }
tokio = { version = "1", features = ["sync"] }
tempfile = "3"
