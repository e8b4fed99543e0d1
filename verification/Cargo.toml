[package]
name = "tf2_demostats"
version = "0.1.0"
edition = "2021"
publish = false

[dependencies]
tf-demo-parser = "*"
bitbuffer = "*"
serde = { version = "*", features = ["derive"] }
serde_json = "*"
keyvalues-serde = "*"
