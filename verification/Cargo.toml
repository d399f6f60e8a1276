[package]
name = "ricture"
version = "0.1.0"
edition = "2021"
publish = false

[dependencies]
png = "=0.18.1"
wayland-client = "=0.31.15"
wayland-protocols-wlr = { version = "=0.3.12", features = ["client"] }
smithay-client-toolkit = { version = "=0.21.1", default-features = false }
tiny-skia = "=0.12.0"
memmap2 = "=0.9.12"
rustix = { version = "=1.1.6", features = ["fs"] }
chrono = "=0.4.45"
serde = { version = "=1.0.229", features = ["derive"] }
toml = "=1.1.8"
regex = "=1.13.1"
rustbus = "=0.19.3"
