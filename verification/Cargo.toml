[package]
name = "git-auto-fetch"
version = "0.1.0"
edition = "2021"
publish = false

[dependencies]
anyhow = "1"
config = "0.11"
git2 = { version = "0.13", default-features = false }
log = "0.4"
log4rs = "1"
serde = { version = "1", features = ["derive"] }
structopt = "0.3"

[dev-dependencies]
assert_fs = "1"
