[package]
name = "procon2_xinput"
version = "0.1.0"
edition = "2021"
publish = false

[dependencies]
evdev = "*"
rusb = "*"
uinput = "*"
