[package]
name = "necessist_ts"
version = "0.1.0"
edition = "2021"
publish = false

[dependencies]
ansi_term = "=0.12.1"
anyhow = "=1.0.104"
bitflags = "=2.13.2"
clap = { version = "=4.6.7", features = ["derive"] }
heck = "=0.5.0"
log = "=0.4.35"
remain = "=0.2.16"
subprocess = "=0.2.15"
swc_core = { version = "=40.0.0", features = ["common", "ecma_ast", "ecma_parser_typescript"] }
walkdir = "=2.5.0"
