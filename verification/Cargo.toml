[package]
name = "tplpipe"
version = "0.1.0"
edition = "2021"
publish = false

[dependencies]
cgi = "*"
handlebars = "*"
http = "*"
serde_json = "*"
ureq = "*"
url = "*"
