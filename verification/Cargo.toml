[package]
name = "osmtools"
version = "0.1.0"
edition = "2021"
publish = false

[dependencies]
geo = "=0.33.1"
geo-types = "=0.7.20"
kiddo = "=4.2.1"
proj4rs = { version = "=0.2.0", features = ["crs-definitions"] }
osmpbfreader = "=0.19.1"
