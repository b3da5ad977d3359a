[package]
name = "mtimer"
version = "0.1.0"
edition = "2021"
publish = false

[dependencies]
embassy-time = { version = "=0.5.1", features = ["tick-hz-1_000_000"] }
embassy-time-driver = "=0.2.2"
embassy-executor = "=0.10.0"
critical-section = { version = "=1.2.0", features = ["restore-state-usize"] }
riscv = "=0.16.1"
aclint = "=0.1.0"
fast-trap = "=0.1.0"
