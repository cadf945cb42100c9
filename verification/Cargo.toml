[package]
name = "fractal_explorer"
version = "0.1.0"
edition = "2021"
publish = false

[dependencies]
bytemuck = "1"
num-complex = "0.4"
wgpu = "23"
yew = { version = "0.21", features = ["csr"] }
console_error_panic_hook = "0.1"
