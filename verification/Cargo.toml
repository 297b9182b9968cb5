[package]
name = "niri_spacer"
version = "0.1.0"
edition = "2021"
publish = false

[dependencies]
fastrand = "=2.5.0"
clap = { version = "=4.6.7", features = ["derive"] }
tokio = { version = "=1.53.2", features = ["rt-multi-thread", "macros", "net", "time", "io-util", "sync"] }
futures-util = "=0.3.34"
tokio-util = { version = "=0.7.19", features = ["codec"] }
tokio-stream = "=0.1.19"
signal-hook = "=0.4.5"
signal-hook-tokio = { version = "=0.4.0", features = ["futures-v0_3"] }
smithay-client-toolkit = { version = "=0.21.1", default-features = false }
tracing = "=0.1.44"
tracing-subscriber = { version = "=0.3.23", features = ["env-filter", "fmt"] }
which = "=8.0.6"
