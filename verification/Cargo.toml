[package]
name = "verfploeter"
version = "0.1.0"
edition = "2021"
publish = false

[dependencies]
byteorder = "1"
clap = "2"
env_logger = "0.6"
futures = "0.1"
grpcio = "0.4"
hyper = "0.12"
log = "0.4"
prometheus = "0.5"
protobuf = "2"
tokio = "0.1"
