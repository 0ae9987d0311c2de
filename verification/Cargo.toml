[package]
name = "nexus"
version = "0.1.0"
edition = "2021"
publish = false

[dependencies]
byteorder = "*"
mio = "0.5"
netbuf = "*"
rotor = "*"
serde = { version = "*", features = ["derive"] }
serde_json = "*"
void = "*"
