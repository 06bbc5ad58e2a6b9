[package]
name = "kmf_installer"
version = "0.1.0"
edition = "2021"
publish = false

[dependencies]
url = "*"
directories = "*"
native-dialog = "*"
