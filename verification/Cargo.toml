[package]
name = "popsec"
version = "0.1.0"
edition = "2021"
publish = false

[dependencies]
base32 = "*"
sys-info = "*"
libc = "*"
dbus = { version = "*", features = ["vendored"] }
dbus-crossroads = "*"
