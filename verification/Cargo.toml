[package]
name = "ext2lower"
version = "0.1.0"
edition = "2021"
publish = false

[dependencies]
clap = "4"
