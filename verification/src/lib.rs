//! Frontends of two vhost-user devices, virtio-gpu and virtio-media: the rules by which a virtual
//! machine monitor sets such a device up, brings it to life, answers the backend's requests for
//! shared memory and takes the device down again.
//!
//! The library decides and the monitor acts. A connection, a system call or a thread is asked for
//! by a value of the library, and what came of it is handed back to the library, which says what
//! follows.

pub mod activate;
pub mod bindings;
pub mod config;
pub mod device;
pub mod features;
pub mod gpu;
pub mod lifecycle;
pub mod media;
pub mod setup;
pub mod shmem;
