[package]
name = "packet-stream"
version = "0.1.0"
edition = "2021"
publish = false

[dependencies]
futures = "=0.1.31"
tokio-io = "=0.1.13"
atm-async-utils = "0.1.2"
multi-producer-sink = "0.3.0"
multi-consumer-stream = "0.3.0"
packet-stream-codec = "0.1.0"

[dev-dependencies]
partial-io = { version = "=0.3.1", features = ["tokio", "quickcheck"] }
quickcheck = "=0.6.2"
async-ringbuffer = "0.2.0"
rand = "=0.4.6"
