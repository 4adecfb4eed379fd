[package]
name = "quadcopter"
version = "0.1.0"
edition = "2021"
publish = false

[dependencies]
bmp280 = "*"
bno055 = "*"
linux-embedded-hal = "*"
mint = "*"
simple-signal = "*"
sysfs-pwm = "*"
