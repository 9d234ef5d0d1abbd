[package]
name = "datalayerapi_tidb"
version = "0.1.0"
edition = "2021"
publish = false

[dependencies]
chrono = "0.4"
config = "0.14"
lazy_static = "1"
log = "0.4"
mysql_async = "*"
rdkafka = "*"
serde = { version = "1", features = ["derive"] }
serde_json = "1"
tokio = { version = "1", features = ["macros", "rt-multi-thread"] }
async-std = "1"
sqlx = { version = "0.8", default-features = false, features = ["mysql", "runtime-tokio", "chrono", "json"] }
tonic = "*"
