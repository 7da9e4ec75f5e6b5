[package]
name = "vhost_user_devices"
version = "0.1.0"
edition = "2021"
publish = false

[dependencies]
libc = "=0.2.191"
log = "=0.4.35"
seccompiler = "=0.5.0"
vhost = { version = "=0.16.0", features = ["vhost-user", "vhost-user-frontend"] }
virtio-bindings = "=0.2.7"
vm-memory = { version = "=0.17.1", features = ["backend-mmap", "backend-atomic", "backend-bitmap"] }
vmm-sys-util = "=0.15.0"
