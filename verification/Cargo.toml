[package]
name = "xim_protocol"
version = "0.1.0"
edition = "2021"
publish = false

[dependencies]
bytemuck = { version = "1", features = ["extern_crate_alloc"] }
x11rb-protocol = "*"

[dev-dependencies]
fastrand = "2"
