[package]
name = "texlab"
version = "0.1.0"
edition = "2021"
publish = false

[dependencies]
anyhow = "1.0"
cancellation = "0.1"
crossbeam-channel = "0.5"
csl = "0.0.1"
cstree = "0.9"
fnv = "1.0"
html2md = "0.2"
log = "0.4"
lsp-server = "0.5"
lsp-types = "0.91"
multimap = "0.8"
notify = "5.0"
once_cell = "1"
rayon = "1.5"
regex = "1.5"
rustc-hash = "1.1"
serde = { version = "1.0", features = ["derive"] }
serde_json = "1.0"
threadpool = "1.8"
