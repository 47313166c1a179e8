[package]
name = "point-quaffer"
version = "0.1.0"
edition = "2021"
publish = false

[dependencies]
arrow-array = "=59.3.1"
arrow-schema = "=59.3.1"
clap = { version = "=4.6.7", features = ["derive"] }
gdal = "=0.19.0"
geo = "=0.33.1"
geoarrow = "=0.9.0"
geoarrow-array = "=0.9.0"
geoarrow-schema = "=0.9.0"
geoparquet = "=0.9.0"
las = { version = "=0.9.11", features = ["laz-parallel"] }
parquet = { version = "=59.3.1", default-features = false, features = ["arrow", "snap"] }
serde_json = "=1.0.154"
