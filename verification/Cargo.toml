[package]
name = "native_model"
version = "0.1.0"
edition = "2021"
publish = false

[dependencies]
serde = "1"
bincode = "1.3"
postcard = { version = "1.0", default-features = false, features = ["alloc"] }
rmp-serde = "1.3"
zerocopy = "0.8"
anyhow = "1"
thiserror = "1"
syn = { version = "2", features = ["full"] }
quote = "1"
proc-macro2 = "1"
