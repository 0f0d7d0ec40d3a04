[package]
name = "muxw"
version = "0.1.0"
edition = "2021"
publish = false

[dependencies]
libc = "=0.2.191"
slab = "=0.4.12"
bitflags = "=2.13.2"
log = "=0.4.35"
clap = { version = "=4.6.7", features = ["derive"] }
clap_complete = "=4.6.11"
serde = { version = "=1.0.229", features = ["derive"] }
mlua = { version = "=0.12.2", features = ["lua54", "vendored", "serialize"] }
arc-swap = "=1.9.3"
crossbeam-channel = "=0.5.17"
multi_index_map = "=0.15.1"
rustc-hash = "=2.1.3"
polling = "=3.11.0"
rustix = { version = "=1.1.6", features = ["fs"] }
udev = "=0.9.3"
wayland-server = "=0.31.14"
xkbcommon = "=0.9.0"
input = { version = "*", default-features = false }
