[package]
name = "ansync"
version = "0.1.0"
edition = "2021"
publish = false

[dependencies]
sha2 = "=0.10.9"
ed25519-dalek = { version = "=2.2.0", features = ["rand_core"] }
snow = "=0.9.6"
rand_core = { version = "=0.6.4", features = ["getrandom"] }
hex = "=0.4.3"
opus-rs = "=0.1.40"
uuid = { version = "=1.29.0", features = ["v4"] }
bytes = "=1.12.1"
tokio = { version = "=1.54.1", features = ["full"] }
tracing = "=0.1.44"
tracing-subscriber = { version = "=0.3.23", features = ["env-filter"] }
clap = { version = "=4.6.7", features = ["derive"] }
zbus = { version = "=5.19.0", default-features = false, features = ["tokio"] }
futures = "=0.3.34"
directories = "=6.0.0"
serde = { version = "=1.0.229", features = ["derive"] }
postcard = { version = "=1.1.3", features = ["alloc"] }
libc = "=0.2.191"
async-trait = "=0.1.92"
wl-clipboard-rs = "=0.9.5"
wayland-client = "=0.31.15"
wayland-protocols-wlr = { version = "=0.3.12", features = ["client"] }
fuser = { version = "=0.18.0", default-features = false }
input-linux = "=0.7.1"
mdns-sd = "0.13"
zudp = { version = "=0.3.9", default-features = false, features = ["discovery", "serde"] }
