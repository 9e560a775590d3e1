[package]
name = "nixdoc"
version = "0.1.0"
edition = "2021"
publish = false

[dependencies]
xml-rs = "*"
rnix = "0.11"
rowan = "0.15"
structopt = "0.3"
