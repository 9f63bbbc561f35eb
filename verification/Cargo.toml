[package]
name = "market_chart"
version = "0.1.0"
edition = "2021"
publish = false

[dependencies]
chrono = "0.4"
clap = { version = "4", features = ["cargo"] }
plotters = { version = "0.3", default-features = false, features = ["svg_backend", "chrono", "line_series", "point_series"] }
serde = { version = "1", features = ["derive"] }
serde_json = "1"
ureq = "3"
