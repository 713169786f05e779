[package]
name = "versioned_store"
version = "0.1.0"
edition = "2021"
publish = false

[dependencies]
borsh = "=0.6.2"
near-sdk = "=0.11.0"
serde = { version = "=1.0.229", features = ["derive"] }
# Not used by this crate's code: the derive crates of borsh 0.6 and near-sdk
# 0.11 import `syn::export`, which syn 1.0.58 removed.
syn = "=1.0.57"
wee_alloc = "=0.4.5"
