[package]
name = "status_line"
version = "0.1.0"
edition = "2021"
publish = false

[dependencies]
chrono = "*"
config = { version = "*", default-features = false, features = ["toml"] }
ctrlc = "*"
dbus = "*"
libnotify = "*"
x11 = { version = "*", features = ["xlib"] }
