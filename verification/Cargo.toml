[package]
name = "cupi"
version = "0.1.0"
edition = "2021"
publish = false

[dependencies]
bitflags = "*"
libc = "*"
mio = { version = "*", features = ["os-poll", "os-ext"] }
mmap = "*"
nix = { version = "*", features = ["user", "time"] }
spidev = "*"
