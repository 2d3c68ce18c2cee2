[package]
name = "motor_control"
version = "0.1.0"
edition = "2021"
publish = false

[dependencies]
bytes = "=0.4.12"
futures = "=0.1.31"
tokio = "=0.1.22"
tokio-io = "=0.1.13"
tokio-serial = { version = "=3.3.0", default-features = false }
tokio-tungstenite = { version = "=0.9.0", default-features = false }
serde = "=1.0.229"
serde_derive = "=1.0.229"
serde_json = "=1.0.154"
i2cdev = "=0.4.4"
sysfs_gpio = "=0.5.4"
rplidar_drv = "=0.5.0"
serialport = { version = "=3.3.0", default-features = false }
bufstream = "=0.1.4"
crossbeam-channel = "=0.3.9"
