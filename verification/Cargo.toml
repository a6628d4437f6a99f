[package]
name = "pq_analysis"
version = "0.1.0"
edition = "2021"
publish = false

[dependencies]
ffmpeg-next = "*"
plotters = "*"
