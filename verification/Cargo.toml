[package]
name = "pokebot_pipeline"
version = "0.1.0"
edition = "2021"
publish = false

[dependencies]
rand = "0.9"
uuid = { version = "1", features = ["v4"] }
image = { version = "0.25", default-features = false, features = ["png"] }
imghash = "*"
tokio = { version = "1", features = ["full"] }
tower = { version = "0.5", features = ["util", "timeout"] }
tracing = "0.1"
futures = "0.3"
async-trait = "0.1"
time = "0.3"
