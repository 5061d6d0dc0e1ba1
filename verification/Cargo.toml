[package]
name = "stream_supervisor"
version = "0.1.0"
edition = "2021"
publish = false

[dependencies]
anyhow = "1"
glib = "*"
gstreamer = "*"
structopt = "0.3"
