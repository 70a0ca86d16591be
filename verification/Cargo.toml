[package]
name = "bevy_naia_laminar"
version = "0.1.0"
edition = "2021"
publish = false

[dependencies]
# Not called from this crate. naia-server-socket takes any 0.1 release of it;
# this one is built on syn 1 with the `full` feature, which the derive macros
# of bevy 0.5 use without asking for it. With a newer release they do not build.
async-trait = "=0.1.50"
bevy = { version = "=0.5.0", default-features = false }
crossbeam-channel = "=0.5.17"
futures-lite = "=1.13.0"
instant = "=0.1.13"
laminar = "=0.5.0"
naia-client-socket = { version = "=0.6.1", features = ["multithread"] }
naia-server-socket = { version = "=0.5.0", features = ["use-udp"] }
