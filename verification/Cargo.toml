[package]
name = "lazypass"
version = "0.1.0"
edition = "2021"
publish = false

[dependencies]
argon2 = "=0.5.3"
secrecy = "=0.10.3"
zeroize = "=1.9.1"
dotenvy = "=0.15.7"
log = "=0.4.34"
tokio = { version = "=1.54.1", features = ["time"] }
enigo = "*"
