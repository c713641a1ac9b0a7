[package]
name = "oxidoc"
version = "0.1.0"
edition = "2021"
publish = false

[dependencies]
base64 = "=0.22.1"
sha2 = "=0.10.9"
chrono = { version = "=0.4.45", default-features = false, features = ["clock", "std"] }
serde_json = "=1.0.154"
openapiv3 = "=2.2.0"
serde-saphyr = "=2.0.0"
rkyv = "0.8"
