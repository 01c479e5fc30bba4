[package]
name = "sysreport"
version = "0.1.0"
edition = "2021"
publish = false

[dependencies]
sysinfo = "0.28"
whoami = "1"
