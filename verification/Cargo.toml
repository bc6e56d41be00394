[package]
name = "appimagezip"
version = "0.1.0"
edition = "2021"
publish = false

[dependencies]
zip = { version = "=9.0.5", default-features = false, features = ["deflate"] }
time = "=0.1.45"
libc = "=0.2.191"
fuse = "=0.3.1"
tempdir = "=0.3.7"
getopts = "=0.2.24"
