[package]
name = "regulus"
version = "0.1.0"
edition = "2021"
publish = false

[dependencies]
astro-float = "*"
az = "=1.3.0"
bytemuck = "=1.25.2"
claxon = "=0.4.3"
hound = "=3.5.1"
libm = "=0.2.16"
serde = { version = "=1.0.229", features = ["derive"] }
serde_json = "=1.0.151"
