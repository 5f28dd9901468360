[package]
name = "payload_router"
version = "0.1.0"
edition = "2021"
publish = false

[dependencies]
clap = { version = "=4.6.7", features = ["derive", "env"] }
futures-util = "=0.3.34"
gstreamer = "=0.25.4"
gstreamer-app = "=0.25.2"
kstring = "<2.0.5"
retina = "=0.4.21"
tokio = { version = "=1.53.2", features = ["macros", "rt-multi-thread"] }
url = "=2.5.8"
