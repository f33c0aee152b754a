[package]
name = "solflow"
version = "0.1.0"
edition = "2021"
publish = false

[dependencies]
async-trait = "0.1"
carbon-bonkswap-decoder = "0.12.0"
carbon-core = "0.12.0"
carbon-jupiter-dca-decoder = "0.12.0"
carbon-moonshot-decoder = "0.12.0"
carbon-pump-swap-decoder = "0.12.0"
carbon-pumpfun-decoder = "0.12.0"
chrono = { version = "0.4", default-features = false, features = ["now"] }
dashmap = "6"
dotenv = "0.15"
env_logger = { version = "0.11", default-features = false }
log = "0.4"
rusqlite = { version = "0.37", features = ["bundled"] }
serde_json = "1"
tokio = { version = "1", features = ["rt-multi-thread", "macros", "sync", "time"] }
