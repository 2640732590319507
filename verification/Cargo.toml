[package]
name = "rocket_guide"
version = "0.1.0"
edition = "2021"
publish = false

[dependencies]
uuid = { version = "1", features = ["v4"] }
rocket = { version = "0.5", features = ["json"] }
rocket_db_pools = { version = "0.2", features = ["sqlx_postgres"] }
rocket_dyn_templates = { version = "0.2", features = ["tera"] }
sqlx = { version = "0.7", default-features = false, features = ["macros", "postgres", "uuid", "chrono"] }
chrono = "0.4"
image = { version = "0.24", default-features = false, features = ["jpeg", "png", "gif", "bmp"] }
lazy_static = "1"
