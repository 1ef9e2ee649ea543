[package]
name = "gt911"
version = "0.1.0"
edition = "2021"
publish = false

[dependencies]
heapless = { version = "0.8", default-features = false }
embedded-hal = "1.0"
embedded-hal-async = "1.0"
defmt = "0.3"
