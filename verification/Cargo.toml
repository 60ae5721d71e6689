[package]
name = "rustech"
version = "0.1.0"
edition = "2021"
publish = false

[dependencies]
ring = "=0.17.14"
scraper = "=0.27.0"
reqwest = { version = "=0.13.5", default-features = false, features = ["cookies", "form"] }
futures = "=0.3.34"
tokio = { version = "*", features = ["rt", "net", "time"] }

[dev-dependencies]
data-encoding = "=2.11.1"
