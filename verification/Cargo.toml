[package]
name = "opensbi_rt"
version = "0.1.0"
edition = "2021"
publish = false

[dependencies]
riscv = "*"
rand = { version = "0.7", default-features = false, features = ["small_rng"] }
syn = { version = "1", features = ["full", "extra-traits"] }
quote = "1"
proc-macro2 = "1"
spin = "*"
linked_list_allocator = "0.10"
