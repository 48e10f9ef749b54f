[package]
name = "perf_metrics"
version = "0.1.0"
edition = "2021"
publish = false

[dependencies]
minstant = "=0.1.7"
tokio = { version = "=1.54.1", default-features = false, features = ["sync"] }
rayon = "1"
