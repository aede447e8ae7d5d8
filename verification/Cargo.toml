[package]
name = "parametric_eq"
version = "0.1.0"
edition = "2021"
publish = false

[dependencies]
ringbuf = "0.2"
vst = "0.2.1"
biquad = "0.4"
num-complex = "0.4"
assert_no_alloc = "1.1"
log = "0.4"
log-panics = "2"
simplelog = "0.10"
dirs = "3"
imgui = "0.7"
raw-window-handle = "0.3"
baseview = "*"
imgui-baseview = "*"
