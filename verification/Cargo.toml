[package]
name = "llvm_interp"
version = "0.1.0"
edition = "2021"
publish = false

[dependencies]
llvm-ir = { version = "=0.11.3", features = ["llvm-14"] }
llvm-sys = { version = "=140.1.3", features = ["force-dynamic"] }
either = "=1.19.0"
