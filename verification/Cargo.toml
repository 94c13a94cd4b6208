[package]
name = "vibewatch"
version = "0.1.0"
edition = "2021"
publish = false

[dependencies]
anyhow = "=1.0.104"
embedded-graphics = "=0.8.2"
embedded-graphics-terminal = "=0.1.2"
embedded-svc = "=0.29.0"
embedded-text = "=0.7.3"
esp-idf-svc = "=0.53.0"
esp32-nimble = "=0.13.0"
log = "=0.4.35"
serde = { version = "=1.0.229", features = ["derive"] }
serde_json = { version = "=1.0.154", features = ["raw_value"] }
tinygif = "=0.0.4"
tokio = { version = "=1.54.1", features = ["macros", "rt", "sync", "time"] }
u8g2-fonts = { version = "=0.8.0", features = ["embedded_graphics_textstyle"] }
vt100 = "=0.16.2"
