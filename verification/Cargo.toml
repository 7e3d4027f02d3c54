[package]
name = "nfdump"
version = "0.1.0"
edition = "2021"
publish = false

[dependencies]
byteorder = "1"
bzip2 = "*"
eui48 = { version = "1", default-features = false }
lz4_flex = "*"
minilzo = "*"
zstd = "*"
