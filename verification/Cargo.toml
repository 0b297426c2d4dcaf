[package]
name = "nervos-dao-extended-ownership-script"
version = "0.1.0"
edition = "2021"
publish = false

[dependencies]
blake2b-ref = "=0.3.1"
ckb-std = "=1.1.0"

[dev-dependencies]
ckb-crypto = "=1.1.1"
