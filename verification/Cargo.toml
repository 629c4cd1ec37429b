[package]
name = "fofscreen"
version = "0.1.0"
edition = "2021"
publish = false

[dependencies]
clap = "2.33"
flume = "0.10"
glium = "0.30"
glutin = "0.27"
image = "0.23"
lazy_static = "1.4"
nokhwa = { version = "0.9", default-features = false }
tch = "0.10"
