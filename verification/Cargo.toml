[package]
name = "sly"
version = "0.5.0"
edition = "2021"
publish = false

[dependencies]
anyhow = "=1.0.104"
async-trait = "=0.1.92"
chrono = "=0.4.45"
colored = "=2.2.0"
cozo = { version = "=0.7.6", default-features = false, features = ["graph-algo"] }
hex = "=0.4.3"
ndarray = "=0.15.6"
notify = "=6.1.1"
quote = "=1.0.47"
rayon = "=1.12.0"
regex = "=1.13.1"
reqwest = { version = "0.12", default-features = false, features = ["json", "rustls-tls"] }
serde = { version = "=1.0.229", features = ["derive"] }
serde_json = "=1.0.154"
sha2 = "=0.10.9"
syn = { version = "=2.0.119", features = ["full", "visit"] }
tokio = { version = "=1.54.1", features = ["full"] }
toml = "=0.8.23"
uuid = { version = "=1.29.0", features = ["v4"] }
