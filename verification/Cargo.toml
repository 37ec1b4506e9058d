[package]
name = "local_compute"
version = "0.1.0"
edition = "2021"
publish = false

[dependencies]
serde_json = "1"
chrono = "0.4"
seahash = "4"
hyper = "0.14"
libloading = "0.7"
tokio = { version = "1", features = ["full"] }
tracing = "0.1"
serde = { version = "1", features = ["derive"] }
thiserror = "1"
async-trait = "0.1"
axum = "0.4"
warp = "0.3"
lazy_static = "1"
