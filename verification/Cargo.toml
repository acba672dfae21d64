[package]
name = "gp_client"
version = "0.1.0"
edition = "2021"
publish = false

[dependencies]
base64 = "=0.23.1"
keyring = "=4.2.0"
libc = "=0.2.191"
reqwest = { version = "=0.13.5", default-features = false, features = ["blocking", "form", "query", "rustls-no-provider"] }
roxmltree = "=0.21.2"
rustls = { version = "=0.23.46", default-features = false, features = ["ring", "std", "tls12"] }
rustls-native-certs = "=0.8.5"
rustls-pemfile = "=2.2.0"
serde = { version = "=1.0.229", features = ["derive"] }
serde_json = "=1.0.154"
sha2 = "=0.11.1"
thiserror = "=2.0.21"
urlencoding = "=2.1.3"
x509-parser = "=0.18.1"
zeroize = "=1.9.1"
