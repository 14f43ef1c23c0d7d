[package]
name = "hesapla"
version = "0.1.0"
edition = "2021"
publish = false

[dependencies]
mongodb = "2"
bson = "2"
rocket = { version = "0.5", features = ["json"] }
rocket_db_pools = { version = "0.2", features = ["mongodb"] }
serde = { version = "1", features = ["derive"] }
