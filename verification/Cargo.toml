[package]
name = "rocket_tera"
version = "0.1.0"
edition = "2021"
publish = false

[dependencies]
rocket = "=0.5.2"
tera = { version = "=2.4.0", features = ["glob_fs"] }
tera-contrib = { version = "=0.3.0", features = ["base64", "date", "filesize_format", "format", "json", "rand", "regex", "slug", "urlencode"] }
normpath = "=1.5.2"
notify = "=8.2.1"

[dev-dependencies]
tempfile = "=3.27.0"
