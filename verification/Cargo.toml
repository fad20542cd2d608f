[package]
name = "jailer"
version = "1.0.0"
edition = "2021"
publish = false

[dependencies]
landlock = "=0.4.7"
libc = "=0.2.191"
serde_json = "=1.0.154"
thiserror = "=2.0.21"
vmm-sys-util = "=0.15.0"
