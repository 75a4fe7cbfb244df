[package]
name = "mpu6050_dmp"
version = "0.1.0"
edition = "2021"
publish = false

[dependencies]
embedded-hal = "=0.2.7"
embedded-time = "=0.10.1"
drogue-embedded-timer = "=0.2.1"
libm = "=0.2.16"
