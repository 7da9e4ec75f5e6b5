# vhost_user_devices

Frontends of two vhost-user devices, virtio-gpu and virtio-media, for a virtual machine monitor.

- `src/` is the library, verified with Verus. It decides: which features are offered and kept, in
  which order a device is set up, activated, paused, resumed and reset, which of the backend's
  requests for shared memory are refused, and which `mmap` call carries out each of the others.
- `app/` is what acts on these decisions: sockets, system calls and threads. It is generic over the
  parts of the monitor that all devices have in common (`app/monitor.rs`).
- `tests/` runs the library with the real outside crates.

`src/bindings.rs` holds everything that the proofs take from outside crates without proof.
