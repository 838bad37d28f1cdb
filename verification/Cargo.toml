[package]
name = "cpuid"
version = "0.1.0"
edition = "2021"
publish = false

[dependencies]
kvm-bindings = { version = "*", features = ["fam-wrappers"] }
kvm-ioctls = "*"
vmm-sys-util = "*"
serde = { version = "1", features = ["derive"] }
serde_json = "1"
