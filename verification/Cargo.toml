[package]
name = "spreadsheet"
version = "0.1.0"
edition = "2021"
publish = false

[dependencies]
geo = "=0.29.3"
geo-types = "=0.7.20"
geojson = "=0.24.2"
shapefile = "=0.6.0"
galileo-types = "=0.1.1"
nalgebra = "=0.32.6"
num-traits = "=0.2.19"
jiff = "=0.2.38"
serde = { version = "=1.0.229", features = ["derive"] }
serde_json = "=1.0.154"
csv = "=1.4.0"
bincode = "=1.3.3"
clap = { version = "=4.6.7", features = ["derive"] }
thiserror = "=1.0.69"
tracing = "=0.1.44"
indicatif = "=0.17.11"
rayon = "=1.12.0"
dotenvy = "=0.15.7"
strum = { version = "=0.26.3", features = ["derive"] }
