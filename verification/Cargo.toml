[package]
name = "shmem_ipc_gem"
version = "0.1.0"
edition = "2021"
publish = false

[dependencies]
shmem-ipc = "*"
rb-sys = "0.9"
