[package]
name = "neural_analytics_core"
version = "0.1.0"
edition = "2021"
publish = false
rust-version = "1.95"

[dependencies]
rand = "=0.8.8"
log = "=0.4.34"
env_logger = "=0.11.11"
once_cell = "=1.21.4"
tokio = { version = "=1.54.1", features = ["full"] }
tract-onnx = "=0.21.12"
tapo = "=0.8.11"
# tract-onnx needs kstring; its newest release asks for a compiler newer
# than rust-version, so it is held at the last release that does not.
kstring = "=2.0.2"
