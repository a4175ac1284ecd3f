[package]
name = "dizi"
version = "0.1.0"
edition = "2021"
publish = false

[dependencies]
rand = "=0.8.8"
strfmt = "=0.1.6"
shellexpand = "=2.1.2"
dirs-next = "=2.0.0"
m3u = "=1.0.0"
libc = "=0.2.191"
serde = { version = "=1.0.229", features = ["derive"] }
serde_json = "=1.0.154"
toml = "=0.5.11"
log = "=0.4.35"
env_logger = "=0.9.3"
structopt = "=0.3.26"
xdg = "=2.5.2"
lazy_static = "=1.5.1"
cpal = "=0.13.5"
symphonia = "0.5"
