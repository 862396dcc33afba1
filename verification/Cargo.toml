[package]
name = "containerd-shim-wasmtime"
version = "0.1.0"
edition = "2021"
publish = false

[dependencies]
anyhow = "=1.0.104"
hyper = { version = "=1.12.0", default-features = false, features = ["http1", "server"] }
libc = "=0.2.191"
log = "=0.4.34"
tokio = { version = "=1.54.1", default-features = false, features = ["macros", "net", "rt", "signal", "sync"] }
tokio-util = { version = "=0.7.20", default-features = false, features = ["rt"] }
wasmtime = { version = "=27.0.0", default-features = false, features = ["async", "component-model", "cranelift", "runtime", "std"] }
wasmtime-wasi = { version = "=27.0.0", default-features = false, features = ["preview1"] }
wasmtime-wasi-http = { version = "=27.0.0", default-features = false }

[dev-dependencies]
wasmparser = { version = "=0.219.2", default-features = false, features = ["std"] }
