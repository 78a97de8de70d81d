[package]
name = "brewery_sales"
version = "0.1.0"
edition = "2021"
publish = false

[dependencies]
actix-web = { version = "=4.18.1", default-features = false, features = ["macros"] }
chrono = { version = "=0.4.45", default-features = false, features = ["std", "serde"] }
dotenv = "=0.15.0"
mysql_async = { version = "=0.37.1", default-features = false, features = ["minimal-rust", "chrono"] }
serde = { version = "=1.0.229", features = ["derive"] }
validator = { version = "=0.21.0", features = ["derive"] }
