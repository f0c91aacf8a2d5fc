[package]
name = "trueid"
version = "0.1.0"
edition = "2021"
publish = false

[dependencies]
image = { version = "=0.25.10", default-features = false, features = ["jpeg", "png"] }
serde = { version = "=1.0.229", features = ["derive"] }
serde_json = "=1.0.154"
serde_yaml = "=0.9.34"
thiserror = "=2.0.21"
tracing = "=0.1.44"
tracing-subscriber = { version = "=0.3.23", features = ["env-filter", "fmt"] }
tract-onnx = "=0.21.19"
nalgebra = "=0.33.3"
libc = "=0.2.191"
clap = { version = "=4.6.7", features = ["derive"] }
kstring = { version = "=2.0.0", features = ["serde"] }
