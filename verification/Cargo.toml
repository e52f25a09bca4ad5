[package]
name = "relay_controller"
version = "0.1.0"
edition = "2021"
publish = false

[dependencies]
anyhow = "=1.0.104"
chrono = { version = "=0.4.45", default-features = false, features = ["clock", "std"] }
display-interface-spi = "0.4"
dotenv = "=0.15.0"
embedded-graphics = "=0.7.1"
embedded-hal = "=0.2.7"
embedded-svc = "=0.29.0"
esp-idf-hal = "=0.47.0"
esp-idf-svc = "=0.53.0"
esp-idf-sys = "=0.38.1"
heapless = "=0.8.0"
log = "=0.4.34"
st7789 = "=0.7.0"
