[package]
name = "lazy_pool"
version = "0.1.0"
edition = "2021"
publish = false

[dependencies]
syncbox = "*"
num_cpus = "*"
libc = "*"

[dev-dependencies]
eventual = "*"
