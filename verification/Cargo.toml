[package]
name = "gemma_pipeline"
version = "0.1.0"
edition = "2021"
publish = false

[dependencies]
anyhow = "=1.0.104"
candle-core = "=0.4.1"
candle-nn = "=0.4.1"
either = { version = "=1.19.0", features = ["serde"] }
# candle-core 0.4 builds only with half below 2.5: later releases of half
# implement their random distributions for rand 0.9, candle-core 0.4 uses rand 0.8.
half = "=2.4.1"
hf-hub = "=0.3.2"
serde = { version = "=1.0.229", features = ["derive"] }
serde_json = "=1.0.154"
thiserror = "=1.0.69"
tokenizers = { version = "=0.21.4", default-features = false, features = ["fancy-regex"] }
