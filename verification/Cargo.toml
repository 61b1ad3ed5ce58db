[package]
name = "client_boundary"
version = "0.1.0"
edition = "2021"
publish = false

[dependencies]
bincode = "=1.3.3"
bytes = "=1.12.1"
safe-nd = "=0.10.4"
sn_data_types = "=0.11.42"

[dev-dependencies]
rand = "=0.7.3"
