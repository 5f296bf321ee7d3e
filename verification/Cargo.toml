[package]
name = "rusty_balcon"
version = "0.1.0"
edition = "2021"
publish = false

[dependencies]
anyhow = "*"
embedded-graphics = "*"
esp32-nimble = "*"
esp-hal = { version = "*", features = ["esp32c3", "unstable"] }
esp-idf-hal = "*"
esp-idf-svc = "*"
esp-idf-sys = "*"
sh1106 = "*"
smart-leds = "*"
ws2812-esp32-rmt-driver = "*"
