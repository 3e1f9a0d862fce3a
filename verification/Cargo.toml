[package]
name = "sgpu_compute"
version = "0.1.0"
edition = "2021"
publish = false

[dependencies]
wgpu = "0.19"
flume = "0.11"
pollster = "0.3"
bytemuck = "1"
