[package]
name = "servobridge"
version = "0.1.0"
edition = "2021"
publish = false

[dependencies]
url = "=2.5.8"
jni = "=0.21.1"
log = "=0.4.34"
android_logger = "=0.15.1"
