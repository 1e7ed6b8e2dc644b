[package]
name = "ffs_extractors"
version = "0.1.0"
edition = "2021"
publish = false

[dependencies]
crc32fast = "*"
patina_lzma_rs = "*"
brotli-decompressor = "*"
log = "*"
gdbstub = "*"
r-efi = "*"
pdb-addr2line = "*"
comfy-table = { version = "*", default-features = false }
