[package]
name = "actiona"
version = "0.1.0"
edition = "2021"
publish = false

[dependencies]
unicode-segmentation = "=1.13.3"
image = { version = "=0.25.10", default-features = false, features = ["png"] }
imageproc = { version = "=0.25.1", default-features = false }
humansize = "=2.1.3"
http-body = "=1.1.0"
bytes = "=1.12.1"
chrono = { version = "0.4", default-features = false, features = ["clock", "std"] }
humantime = "2"
convert_case = "0.6"
rand = "0.8"
indexmap = "2"

[dev-dependencies]
