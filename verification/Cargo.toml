[package]
name = "epd4in2_v2"
version = "0.1.0"
edition = "2021"
publish = false

[dependencies]
embedded-hal = "=1.0.0"
embedded-hal-async = "=1.0.0"
embedded-graphics = "=0.8.2"
embassy-executor = { version = "0.9", features = ["arch-std", "executor-thread"] }
embassy-time = "=0.5.1"
embassy-sync = "=0.8.0"
embassy-embedded-hal = "=0.6.0"
embassy-rp = { version = "=0.10.0", features = ["rp2040", "time-driver", "critical-section-impl"] }
assign-resources = "=0.5.0"
