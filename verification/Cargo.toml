[package]
name = "sched_core"
version = "0.1.0"
edition = "2021"
publish = false

[dependencies]
cortex-m = "0.7"
lazy_static = "1"
