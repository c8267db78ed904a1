[package]
name = "cut_optimizer_server"
version = "0.1.0"
edition = "2021"
publish = false

[dependencies]
cut-optimizer-2d = { version = "=0.4.2", features = ["serialize"] }
serde = { version = "=1.0.229", features = ["derive"] }
serde_json = "=1.0.151"
axum = "=0.5.17"
http = "=0.2.12"
hyper = { version = "=0.14.32", features = ["full"] }
tokio = { version = "=1.53.2", features = ["full"] }
tower = { version = "=0.4.13", features = ["full"] }
tower-http = { version = "=0.3.5", features = ["trace", "compression-gzip"] }
rayon = "=1.12.0"
structopt = "=0.3.26"
tracing = "=0.1.44"
tracing-subscriber = { version = "=0.3.23", features = ["env-filter"] }
