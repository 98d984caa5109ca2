[package]
name = "zingat"
version = "0.1.0"
edition = "2021"
publish = false

[dependencies]
chrono = { version = "0.4", default-features = false, features = ["std"] }
crossbeam-channel = "0.5"
dotenv = "0.15"
handlebars = "4"
serde = { version = "1", features = ["derive"] }
serde_json = "1"
structopt = "0.3"
thiserror = "1"
tokio = { version = "1", features = ["rt", "rt-multi-thread", "time"] }
uuid = "1"
