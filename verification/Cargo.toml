[package]
name = "ledger_modules"
version = "0.1.0"
edition = "2021"
publish = false

[dependencies]
lite-json = "*"
log = "*"
parity-scale-codec = "*"
sp-core = "*"
sp-io = "*"
sp-runtime = "*"
