[package]
name = "cxx-async"
version = "0.1.0"
edition = "2021"
publish = false

[dependencies]
futures = "=0.3.34"
once_cell = "=1.21.4"
pin-utils = "=0.1.1"
syn = { version = "=2.0.119", default-features = false, features = ["full", "parsing", "printing", "clone-impls"] }
quote = { version = "=1.0.47", default-features = false }
proc-macro2 = { version = "=1.0.107", default-features = false }
unicode-ident = "=1.0.27"
async-recursion = "=1.2.0"
paste = "=1.0.15"
cxx = "=1.0.205"
link-cplusplus = "=1.0.12"
