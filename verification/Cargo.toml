[package]
name = "solo2"
version = "0.1.0"
edition = "2021"
publish = false

[dependencies]
hmac = "=0.13.0"
sha1 = "=0.11.0"
salty = "=0.3.0"
p256 = "=0.14.0"
apdu-dispatch = "=0.4.1"
iso7816 = "=0.2.2"
heapless = "=0.9.3"
trussed-core = "=0.2.3"
postcard = "=1.1.3"
littlefs2-core = "=0.1.3"
serde = { version = "=1.0.229", features = ["derive"] }
