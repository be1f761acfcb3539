[package]
name = "tickr"
version = "0.1.0"
edition = "2021"
publish = false

[dependencies]
anchor-lang = "=0.31.1"
mpl-core = { version = "=0.12.1", default-features = false, features = ["anchor"] }

[dev-dependencies]
borsh = "=0.10.4"
