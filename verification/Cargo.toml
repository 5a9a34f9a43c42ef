[package]
name = "wizrd"
version = "0.1.0"
edition = "2021"
publish = false

[dependencies]
rocket = { version = "0.5", features = ["json"] }
rocket_db_pools = { version = "0.2", features = ["sqlx_postgres"] }
rocket_cors = "0.6"
sqlx = { version = "0.7", default-features = false, features = ["postgres", "runtime-tokio", "macros"] }
serde = { version = "1", features = ["derive"] }
geojson = "0.24"
geo-types = "0.7"
geo-traits = "0.2"
wkt = "0.12"
