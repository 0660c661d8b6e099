[package]
name = "rt_shm"
version = "0.1.0"
edition = "2021"
publish = false

[dependencies]
ov-channels = "=0.2.0"
log = "0.4"
axpoll = "0.3"
axfs-ng-vfs = "0.5"
ax-memory-addr = "0.6"
ax-kspin = "0.3"
ax-task = "0.6"
ax-runtime = "0.8"
ax-driver = "0.10"
mmio-api = "0.2"
rdrive = "0.20"
fdt-parser = "0.4"
