[package]
name = "arc_tree"
version = "0.1.0"
edition = "2021"
publish = false

[dependencies]
fltk = "=0.16.5"
smash-arc = { version = "=0.6.0", features = ["rust-zstd"] }
