[package]
name = "bn382_fq"
version = "0.1.0"
edition = "2021"
publish = false

[dependencies]
rand = "=0.7.3"
ocaml = { version = "=0.18.1", features = ["docs-rs"] }
libc = "=0.2.191"

[dev-dependencies]
num-bigint = "=0.4.8"
