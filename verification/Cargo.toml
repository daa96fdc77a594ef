[package]
name = "bathbot"
version = "0.1.0"
edition = "2021"
publish = false

[dependencies]
eyre = "=0.6.14"
futures = "=0.3.34"
image = { version = "=0.25.10", default-features = false, features = ["png"] }
plotters = { version = "=0.3.7", default-features = false }
plotters-backend = "=0.3.7"
rkyv = "=0.8.18"
rosu-pp = "3.1"
rosu-v2 = "=0.11.0"
time = "=0.3.55"
tokio = { version = "=1.54.1", features = ["macros", "rt"] }
twilight-http = "0.16"
twilight-interactions = "0.16"
twilight-model = "0.16"
