[package]
name = "lychee_lib"
version = "0.1.0"
edition = "2021"
publish = false

[dependencies]
url = "=2.5.8"
percent-encoding = "=2.3.2"
regex = "=1.13.1"
html5gum = "=0.9.0"
email_address = "=0.2.9"
path-clean = "=1.0.1"
http = "=1.5.0"
glob = "=0.3.4"
fancy-regex = "=0.20.0"
ignore = "*"
walkdir = "*"
shellexpand = "*"
