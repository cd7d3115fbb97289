[package]
name = "pdf_platform"
version = "0.1.0"
edition = "2021"
publish = false

[dependencies]
lopdf = "=0.45.0"
libc = "=0.2.190"
