[package]
name = "libutp-rs2"
version = "0.1.0"
edition = "2021"
publish = false

[dependencies]
anyhow = "=1.0.104"
bstr = "=1.13.1"
futures = "=0.3.34"
os_socketaddr = "=0.2.5"
parking_lot = "=0.12.5"
ringbuf = "=0.4.8"
socket2 = "=0.5.10"
tokio = { version = "=1.54.1", features = ["io-util", "macros", "net", "rt", "rt-multi-thread", "sync", "time"] }
tracing = "=0.1.44"
