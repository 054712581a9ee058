[package]
name = "guest_sequencer"
version = "0.1.0"
edition = "2021"
publish = false

[dependencies]
anyhow = "=1.0.104"
hyper = { version = "=0.14.32", features = ["server", "http1", "tcp"] }
tokio = { version = "=1.54.1", features = ["macros", "rt-multi-thread"] }
wasmer = "=7.0.1"
wasmer-compiler-cranelift = "=7.0.1"
wasmer-types = "=7.0.1"
