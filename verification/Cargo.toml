[package]
name = "django_bakery"
version = "0.1.0"
edition = "2021"
publish = false

[dependencies]
heck = "0.5"
rand = "*"
rand_chacha = "*"
regex = "1"
semver = "1"
minijinja = "2"
include_dir = "0.7"
serde = { version = "1", features = ["derive"] }
serde_json = "1"
toml = "*"
ureq = { version = "3", features = ["json"] }
anyhow = "1"
clap = { version = "4", features = ["derive"] }
console = "*"
inquire = "*"
tracing = "0.1"
tracing-subscriber = { version = "0.3", features = ["env-filter"] }
thiserror = "2"
