[package]
name = "rpcx_server"
version = "0.1.0"
edition = "2021"
publish = false

[dependencies]
libc = "0.2"
num_cpus = "1"
rpcx_protocol = "*"
scoped_threadpool = "0.1"
