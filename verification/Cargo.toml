[package]
name = "crypto_box"
version = "0.1.0"
edition = "2021"
publish = false

[dependencies]
chacha20 = { version = "=0.8.2", features = ["expose-core", "hchacha"] }
chacha20poly1305 = "=0.9.1"
rand_core = "=0.6.4"
salsa20 = { version = "=0.9.0", features = ["hsalsa20"] }
serde = "=1.0.229"
x25519-dalek = "=1.2.0"
xsalsa20poly1305 = "=0.8.0"
zeroize = "=1.3.0"

[dev-dependencies]
bincode = "=1.3.3"
rand = "=0.8.8"
rmp-serde = "=1.3.1"
