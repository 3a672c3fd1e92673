[package]
name = "compio"
version = "0.1.0"
edition = "2021"
publish = false

[dependencies]
bytes = "0.4"
crossbeam = "0.6"
futures-core = "0.3"
futures-util = "0.3"
lazy_static = "1"
libc = "0.2"
log = "0.4"
net2 = "0.2"
num_cpus = "1"
pin-utils = "0.1"
scoped-tls = "1"
tracing = "0.1"
uuid = { version = "1", features = ["v4"] }
widestring = "1"
winapi = { version = "0.3", features = ["errhandlingapi", "fileapi", "handleapi", "ioapiset", "minwinbase", "minwindef", "namedpipeapi", "winbase", "winerror", "winnt", "winsock2", "ws2def"] }
