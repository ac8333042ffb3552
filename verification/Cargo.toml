[package]
name = "screen_capture"
version = "0.1.0"
edition = "2021"
publish = false

[dependencies]
image = { version = "=0.25.10", default-features = false, features = ["png"] }
url = "=2.5.8"
time = { version = "=0.3.55", features = ["formatting", "macros", "local-offset"] }
thiserror = "=1.0.69"
clap = { version = "=4.6.7", features = ["derive"] }
tracing = "=0.1.44"
tracing-subscriber = { version = "=0.3.23", features = ["env-filter"] }
x11rb = "=0.13.2"
tokio = { version = "=1.54.1", features = ["rt"] }
ashpd = { version = "=0.12.3", default-features = false, features = ["tokio"] }
zbus = "=5.19.0"
ksni = { version = "=0.3.7", features = ["blocking"] }
imageproc = { version = "=0.25.1", default-features = false }
ab_glyph = "=0.2.32"
