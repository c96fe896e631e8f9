[package]
name = "centrald"
version = "0.1.0"
edition = "2021"
publish = false

[dependencies]
anyhow = "=1.0.104"
argon2 = "=0.5.3"
base64 = "=0.22.1"
chrono = { version = "=0.4.45", features = ["serde"] }
clap = { version = "=4.6.7", features = ["derive"] }
ed25519-dalek = { version = "=2.2.0", features = ["pem", "pkcs8", "rand_core"] }
fs2 = "=0.4.3"
hex = "=0.4.3"
hostname = "=0.4.2"
minisign = "=0.7.9"
pem = "=4.0.0"
portable-pty = "=0.9.0"
rand = "=0.9.5"
rand_core = { version = "=0.6.4", features = ["getrandom"] }
rcgen = { version = "=0.14.10", features = ["pem", "x509-parser"] }
reqwest = { version = "=0.12.28", default-features = false, features = ["blocking", "rustls-tls"] }
rpassword = "=7.5.4"
rustix = { version = "=1.1.6", features = ["fs", "net", "process"] }
semver = "=1.0.28"
serde = { version = "=1.0.229", features = ["derive"] }
serde_json = "=1.0.154"
sha2 = "=0.10.9"
time = "=0.3.55"
toml = "=0.9.12"
tracing = "=0.1.44"
url = "=2.5.8"
uuid = { version = "=1.29.0", features = ["serde", "v7"] }
x509-parser = "=0.18.1"
zeroize = "=1.9.1"
zip = { version = "=2.6.1", default-features = false, features = ["deflate"] }
