[package]
name = "corecycler_gui"
version = "0.1.0"
edition = "2021"
publish = false

[dependencies]
iced = { version = "0.13", default-features = false, features = ["tiny-skia", "tokio"] }
sysinfo = "0.33"
tokio = { version = "1", features = ["process", "io-util", "sync", "rt-multi-thread", "time", "fs"] }
