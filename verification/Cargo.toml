[package]
name = "cortex"
version = "0.1.0"
edition = "2021"
publish = false

[dependencies]
url = "1"
regex = "1"
serde = { version = "1", features = ["derive"] }
serde_json = "1"
redis = "0.27"
time = "0.1"
rocket = "0.5"
rocket_dyn_templates = { version = "*", features = ["handlebars"] }
hyper = { version = "0.14", features = ["client", "http1", "tcp"] }
hyper-tls = "0.5"
tokio = { version = "1", features = ["rt", "rt-multi-thread"] }
zmq = "0.10"
