[package]
name = "screenshot_hero"
version = "0.1.0"
edition = "2021"
publish = false

[dependencies]
serde = { version = "=1.0.229", features = ["derive"] }
serde_json = "=1.0.154"
uuid = { version = "=1.29.0", features = ["v4", "serde"] }
chrono = "=0.4.45"
log = "=0.4.35"
env_logger = "=0.11.11"
glib = "=0.22.10"
gdk-pixbuf = "=0.22.0"
gtk4 = "=0.11.5"
libadwaita = "=0.9.2"
pango = "=0.22.9"
pangocairo = "=0.22.9"
ashpd = { version = "=0.13.13", features = ["screenshot"] }
