[package]
name = "trussed-usbip"
version = "0.1.0"
edition = "2021"
publish = false

[dependencies]
admin-app = "=0.5.0"
apdu-dispatch = "=0.4.1"
clap = { version = "=4.6.7", features = ["derive"] }
clap-num = "=1.2.0"
ctaphid-dispatch = "=0.4.0"
fido-authenticator = { version = "=0.3.0", features = ["dispatch"] }
interchange = "=0.3.3"
littlefs2-core = "=0.1.3"
log = "=0.4.34"
pretty_env_logger = "=0.5.0"
rand_chacha = "=0.3.1"
rand_core = { version = "=0.6.4", features = ["getrandom"] }
trussed = { version = "=0.2.0", features = ["virt"] }
usb-device = "=0.3.2"
usbd-ccid = "=0.5.0"
usbd-ctaphid = "=0.5.0"
usbip-device = "=0.2.0"
