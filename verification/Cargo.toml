[package]
name = "my_library"
version = "0.1.0"
edition = "2021"
publish = false

[dependencies]
rand = "0.9"
rand_pcg = "0.9"
rand_xorshift = "0.4"
bevy = { version = "0.16", default-features = false }
