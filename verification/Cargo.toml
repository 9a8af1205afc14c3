[package]
name = "va_tool"
version = "0.1.0"
edition = "2021"
publish = false

[dependencies]
regex = "1"
url = "2"
log = "0.4"
ctrlc = "3"
crossbeam-channel = "0.5"
