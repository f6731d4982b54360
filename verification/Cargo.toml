[package]
name = "feo"
version = "0.1.0"
edition = "2021"
publish = false

[dependencies]
console = "*"
libc = "*"
log = "*"
mio = { version = "*", features = ["net", "os-poll"] }
time = { version = "*", features = ["formatting"] }
