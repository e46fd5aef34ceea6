[package]
name = "smart_prtscr"
version = "0.1.0"
edition = "2021"
publish = false

[dependencies]
ab_glyph = "=0.2.32"
auto-launch = "*"
base64 = "=0.22.1"
chrono = "=0.4.45"
dirs = "=7.0.0"
image = { version = "=0.25.10", default-features = false, features = ["png", "jpeg", "bmp"] }
imageproc = { version = "=0.25.1", default-features = false }
screenshots = "=0.8.10"
serde = { version = "=1.0.229", features = ["derive"] }
serde_json = "=1.0.154"
winreg = "*"

[dev-dependencies]
epaint_default_fonts = "=0.37.0"
