[package]
name = "docker_on_kvm"
version = "0.1.0"
edition = "2021"
publish = false

[dependencies]
rand = "=0.8.8"
structopt = "=0.3.26"
uuid = { version = "=0.8.2", features = ["v4"] }
virt = "=0.4.3"
