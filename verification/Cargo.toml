[package]
name = "hams"
version = "0.1.0"
edition = "2021"
publish = false

[dependencies]
url = "=2.5.8"
tokio-util = "=0.7.20"
tokio = { version = "=1.54.1", features = ["full"] }
futures = "=0.3.34"
warp = { version = "=0.4.3", features = ["server"] }
reqwest = { version = "=0.13.5", default-features = false, features = ["blocking"] }
serde = { version = "=1.0.229", features = ["derive"] }
thiserror = "=1.0.69"
async-trait = "=0.1.92"
libc = "=0.2.191"
ffi_helpers = "=0.3.0"
thin_trait_object = "=1.1.2"
derive_builder = "=0.20.2"
log = "=0.4.35"
