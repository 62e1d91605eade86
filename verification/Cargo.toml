[package]
name = "native_onnx"
version = "0.2.0"
edition = "2021"
publish = false

[dependencies]
anyhow = "=1.0.104"
half = "=2.7.1"
libloading = "=0.9.0"
onnx-rs = "=0.1.3"
ort = { version = "=2.0.0-rc.13", default-features = false, features = ["std", "load-dynamic", "half", "api-27", "coreml", "cuda", "tensorrt"] }
serde_json = "=1.0.154"
tempfile = "=3.27.0"
