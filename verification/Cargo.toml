[package]
name = "conch"
version = "0.1.0"
edition = "2021"
publish = false

[dependencies]
anyhow = "=1.0.104"
dirs = "=7.0.0"
gix = "=0.88.0"
jj-lib = "=0.32.0"
kstring = "=2.0.2"
nu-ansi-term = "=0.50.3"
