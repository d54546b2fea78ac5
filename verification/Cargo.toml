[package]
name = "message_cipher"
version = "0.1.0"
edition = "2021"
publish = false

[dependencies]
chacha20poly1305 = "=0.10.1"
hex = "=0.4.3"
hkdf = "=0.12.4"
k256 = { version = "=0.13.4", default-features = false, features = ["ecdh", "std"] }
kaspa-addresses = "=0.15.0"
kaspa-wallet-keys = "=0.15.0"
secp256k1 = "=0.29.1"
sha2 = "=0.10.9"
wasm-bindgen = "=0.2.93"
zeroize = "=1.9.1"
