[package]
name = "vaxstats"
version = "0.1.0"
edition = "2021"
publish = false

[dependencies]
anyhow = "=1.0.104"
calamine = "=0.37.0"
chrono = "=0.4.45"
csv = "=1.4.0"
encoding_rs = "=0.8.42"
encoding_rs_io = "=0.1.8"
plotters = { version = "=0.3.7", default-features = false, features = ["bitmap_backend", "bitmap_encoder", "svg_backend", "line_series"] }
prettytable-rs = "=0.10.0"
regex = "=1.13.1"
serde = { version = "=1.0.229", features = ["derive"] }
statrs = "=0.19.1"
