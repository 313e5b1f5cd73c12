[package]
name = "typed_accounts"
version = "0.1.0"
edition = "2021"
publish = false

[dependencies]
bytemuck = "1"
pinocchio = "0.8"
pinocchio-system = "0.2"
proc-macro2 = "1"
quote = "1"
syn = { version = "2", features = ["full"] }
