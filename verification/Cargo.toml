[package]
name = "plag"
version = "0.1.0"
edition = "2021"
publish = false

[dependencies]
clap = "=2.34.0"
geo-types = "=0.7.20"
geojson = "=1.0.0"
kamadak-exif = "0.5"
serde_json = "=1.0.154"
