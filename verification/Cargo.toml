[package]
name = "frame_hook"
version = "0.1.0"
edition = "2021"
publish = false

[dependencies]
jni = "=0.21.1"
jni-sys = "=0.3.1"
log = "=0.4.34"
android_logger = "=0.14.1"
