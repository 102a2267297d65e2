[package]
name = "term_session"
version = "0.1.0"
edition = "2021"
publish = false

[dependencies]
cursebox = "0.1"
libc = "=0.2.191"
bitflags = "=1.3.2"
