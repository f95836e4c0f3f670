[package]
name = "hdf5"
version = "0.1.0"
edition = "2021"
publish = false

[dependencies]
bitflags = "*"
hdf5-sys = "*"
hdf5-types = "*"
lazy_static = "*"
libc = "*"
ndarray = "*"
