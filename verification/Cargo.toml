[package]
name = "kimojio"
version = "0.1.0"
edition = "2021"
publish = false

[dependencies]
futures = "0.3"
http = "1"
impls = "1"
libc = "0.2"
openssl = "0.10"
pin-project-lite = "0.2"
rustix = { version = "1", features = ["fs", "io_uring", "net", "pipe"] }
rustix-uring = "*"
static_assertions = "1"
zerocopy = { version = "0.8", features = ["derive"] }
