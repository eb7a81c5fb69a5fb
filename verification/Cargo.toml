[package]
name = "media-codec-opus"
version = "0.1.0"
edition = "2021"
publish = false

[dependencies]
bytemuck = "=1.25.2"
ctor = "=0.6.3"
media-codec = "0.7"
media-core = "0.7"
