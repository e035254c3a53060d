[package]
name = "rnote_typewriter"
version = "0.1.0"
edition = "2021"
publish = false

[dependencies]
unicode-segmentation = "=1.13.3"
parry2d-f64 = "0.25"
serde = { version = "=1.0.229", features = ["derive"] }
anyhow = "=1.0.104"
log = "=0.4.35"
gtk4 = "=0.11.5"
gettext-rs = "=0.8.0"
fs_extra = "=1.3.0"
