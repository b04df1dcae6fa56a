[package]
name = "epub_meta"
version = "0.1.0"
edition = "2021"
publish = false

[dependencies]
anyhow = "=1.0.104"
log = "=0.4.34"
quick-xml = "=0.30.0"
zip = { version = "=8.6.0", default-features = false, features = ["deflate"] }
