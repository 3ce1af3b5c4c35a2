[package]
name = "hookshot"
version = "0.1.0"
edition = "2021"
publish = false

[dependencies]
openssl = "*"
rustc-serialize = "*"
toml = "*"
serde_json = "*"
hmac = "*"
sha1 = "*"
sha2 = "*"
md-5 = "*"
ripemd = "*"
getopts = "*"
uuid = { version = "*", features = ["v4"] }
chrono = "*"
users = "*"
iron = "*"
router = "*"
