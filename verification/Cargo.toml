[package]
name = "queue_pool"
version = "0.1.0"
edition = "2021"
publish = false

[dependencies]
crossbeam-queue = "*"
once_cell = "*"
