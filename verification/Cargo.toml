[package]
name = "rustiq"
version = "0.1.0"
edition = "2021"
publish = false

[dependencies]
anyhow = "=1.0.104"
eframe = { version = "=0.33.3", default-features = false, features = ["default_fonts", "glow", "x11"] }
env_logger = "=0.11.11"
flume = "=0.12.0"
log = "=0.4.34"
num-complex = "=0.4.6"
rustradio = "=0.16.9"
