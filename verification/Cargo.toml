[package]
name = "gaslighter"
version = "0.1.0"
edition = "2021"
publish = false

[dependencies]
sputnikvm = "=0.10.1"
etcommon-bigint = "=0.2.10"
etcommon-hexutil = "=0.2.4"
serde_json = "=1.0.154"
rustyline = "=9.1.2"
