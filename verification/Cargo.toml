[package]
name = "repitile_server"
version = "0.1.0"
edition = "2021"
publish = false

[dependencies]
gotham = "0.2"
hyper = "0.11"
futures = "0.1"
mime = "0.3"
lazy_static = "1"
dht22_pi = "*"
sysfs_gpio = "0.5"
