[package]
name = "rubrum_swisseph"
version = "0.1.0"
edition = "2021"
publish = false

[dependencies]
rubrum = "=0.1.0"
swisseph = "=0.1.1"
libswisseph-sys = "=0.1.2"
