[package]
name = "globe_viewer"
version = "0.1.0"
edition = "2021"
publish = false

[dependencies]
cgmath = "=0.18.0"
error-chain = "=0.12.4"
fps_counter = "=3.0.0"
gaia_assetgen = "=0.3.2"
gfx = "=0.18.3"
hsl = "=0.1.1"
piston = "=1.0.0"
piston_window = "=0.148.0"
serde_json = "=1.0.154"
