[package]
name = "mimi-ime"
version = "0.1.0"
edition = "2021"
publish = false

[dependencies]
vi = "*"
serde = { version = "1", features = ["derive"] }
toml = "*"
tracing = "*"
tracing-subscriber = { version = "*", features = ["env-filter"] }
tracing-appender = "*"
tokio = { version = "1", features = ["rt-multi-thread", "macros", "sync", "signal", "time"] }
ksni = "*"
wayland-client = "*"
wayland-protocols = { version = "*", features = ["client", "unstable"] }
wayland-protocols-misc = { version = "*", features = ["client"] }
xkbcommon = "*"
polling = "*"
rustix = { version = "*", features = ["fs"] }
eframe = { version = "*", default-features = false, features = ["glow", "wayland"] }
