[package]
name = "ws_security"
version = "0.1.0"
edition = "2021"
publish = false

[dependencies]
base64 = "=0.22.1"
chrono = { version = "=0.4.45", default-features = false, features = ["std", "now"] }
cms = { version = "=0.2.3", features = ["std"] }
const-oid = { version = "=0.9.6", features = ["db"] }
der = { version = "=0.7.10", features = ["std"] }
pem = "=3.0.6"
rand = "=0.9.5"
rsa = "=0.9.10"
sha1 = { version = "=0.10.7", features = ["oid"] }
sha2 = { version = "=0.10.9", features = ["oid"] }
thiserror = "=2.0.21"
uuid = { version = "=1.29.0", features = ["v4"] }
x509-cert = "=0.2.5"
