[package]
name = "kbd_backlight"
version = "0.1.0"
edition = "2021"
publish = false

[dependencies]
image = "*"
once_cell = "*"
rdev = "*"
serde = { version = "*", features = ["derive"] }
tao = "*"
tray-icon = "*"
wmi = "*"
