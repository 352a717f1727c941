[package]
name = "timpani-n"
version = "0.1.0"
edition = "2021"
publish = false

[dependencies]
libbpf-rs = "0.24"
libc = "0.2"
tokio = { version = "1", features = ["rt-multi-thread", "macros", "time", "sync"] }
tokio-util = "0.7"
tracing = "0.1"
