[package]
name = "rechifina"
version = "0.1.0"
edition = "2021"
publish = false

[dependencies]
clap = "4"
ctrlc = "3"
dirs = "5"
flexi_logger = "*"
log = "0.4"
owo-colors = "*"
