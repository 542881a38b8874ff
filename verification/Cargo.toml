[package]
name = "mmtk_dummyvm"
version = "0.1.0"
edition = "2021"
publish = false

[dependencies]
mmtk = { version = "=0.20.0", features = ["is_mmtk_object", "malloc_counted_size"] }
lazy_static = "1.4"
libc = "0.2"
