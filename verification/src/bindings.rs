//! What the library takes from outside crates: the numbers that their interfaces give to feature
//! bits, protection bits and error codes, one overflow check, and the types of the values that it
//! only carries.

use seccompiler::SeccompAction;
use vhost::vhost_user::message::VhostUserConfigFlags;
use vhost::vhost_user::message::VhostUserMMapFlags;
use vhost::vhost_user::message::VhostUserProtocolFeatures;
use vhost::vhost_user::message::VhostUserVirtioFeatures;
use vmm_sys_util::eventfd::EventFd;
use vstd::prelude::*;

verus! {

/// `vmm_sys_util::eventfd::EventFd`, an event counter of the kernel. The library carries such
/// values and never looks inside one.
#[verifier::external_type_specification]
#[verifier::external_body]
pub struct ExEventFd(EventFd);

/// `seccompiler::SeccompAction`, what to do with a forbidden system call. The library carries it
/// from the device's creation to the start of its thread.
#[verifier::external_type_specification]
#[verifier::external_body]
pub struct ExSeccompAction(SeccompAction);

/// `vm_memory::VolatileMemoryError`, the error of `compute_offset`.
#[verifier::external_type_specification]
#[verifier::external_body]
pub struct ExVolatileMemoryError(vm_memory::VolatileMemoryError);

/// `vm_memory::volatile_memory::compute_offset` adds an offset to a base: the sum where it fits
/// in a `usize`, an error otherwise.
pub assume_specification [ vm_memory::volatile_memory::compute_offset ](
    base: usize,
    offset: usize,
) -> (end: vm_memory::volatile_memory::Result<usize>)
    ensures
        match end {
            Ok(sum) => sum == base + offset,
            Err(_) => base + offset > usize::MAX,
        },
;

/// `virtio_bindings::virtio_gpu::VIRTIO_GPU_F_VIRGL` is bit 0.
#[verifier::external_body]
pub(crate) fn virtio_gpu_f_virgl() -> (bit: u32)
    ensures
        bit == 0,
{
    virtio_bindings::virtio_gpu::VIRTIO_GPU_F_VIRGL
}

/// `virtio_bindings::virtio_gpu::VIRTIO_GPU_F_RESOURCE_UUID` is bit 2.
#[verifier::external_body]
pub(crate) fn virtio_gpu_f_resource_uuid() -> (bit: u32)
    ensures
        bit == 2,
{
    virtio_bindings::virtio_gpu::VIRTIO_GPU_F_RESOURCE_UUID
}

/// `virtio_bindings::virtio_gpu::VIRTIO_GPU_F_RESOURCE_BLOB` is bit 3.
#[verifier::external_body]
pub(crate) fn virtio_gpu_f_resource_blob() -> (bit: u32)
    ensures
        bit == 3,
{
    virtio_bindings::virtio_gpu::VIRTIO_GPU_F_RESOURCE_BLOB
}

/// `virtio_bindings::virtio_gpu::VIRTIO_GPU_F_CONTEXT_INIT` is bit 4.
#[verifier::external_body]
pub(crate) fn virtio_gpu_f_context_init() -> (bit: u32)
    ensures
        bit == 4,
{
    virtio_bindings::virtio_gpu::VIRTIO_GPU_F_CONTEXT_INIT
}

/// `virtio_bindings::virtio_config::VIRTIO_F_ACCESS_PLATFORM` is bit 33.
#[verifier::external_body]
pub(crate) fn virtio_f_access_platform() -> (bit: u32)
    ensures
        bit == 33,
{
    virtio_bindings::virtio_config::VIRTIO_F_ACCESS_PLATFORM
}

/// `VhostUserVirtioFeatures::PROTOCOL_FEATURES` of `vhost` has the value `0x4000_0000`.
#[verifier::external_body]
pub(crate) fn vhost_user_f_protocol_features() -> (bits: u64)
    ensures
        bits == 0x4000_0000,
{
    VhostUserVirtioFeatures::PROTOCOL_FEATURES.bits()
}

/// `VhostUserProtocolFeatures::CONFIG` of `vhost` has the value `0x200`.
#[verifier::external_body]
pub(crate) fn protocol_f_config() -> (bits: u64)
    ensures
        bits == 0x200,
{
    VhostUserProtocolFeatures::CONFIG.bits()
}

/// `VhostUserProtocolFeatures::BACKEND_REQ` of `vhost` has the value `0x20`.
#[verifier::external_body]
pub(crate) fn protocol_f_backend_req() -> (bits: u64)
    ensures
        bits == 0x20,
{
    VhostUserProtocolFeatures::BACKEND_REQ.bits()
}

/// `VhostUserProtocolFeatures::REPLY_ACK` of `vhost` has the value `0x8`.
#[verifier::external_body]
pub(crate) fn protocol_f_reply_ack() -> (bits: u64)
    ensures
        bits == 0x8,
{
    VhostUserProtocolFeatures::REPLY_ACK.bits()
}

/// `VhostUserMMapFlags::WRITABLE` of `vhost` has the value 1.
#[verifier::external_body]
pub(crate) fn mmap_flag_writable() -> (bits: u64)
    ensures
        bits == 1,
{
    VhostUserMMapFlags::WRITABLE.bits()
}

/// `VhostUserConfigFlags::WRITABLE` of `vhost` has the value 1.
#[verifier::external_body]
pub(crate) fn config_flag_writable() -> (bits: u32)
    ensures
        bits == 1,
{
    VhostUserConfigFlags::WRITABLE.bits()
}

/// `libc::EINVAL` is 22 on Linux.
#[verifier::external_body]
pub(crate) fn einval() -> (errno: i32)
    ensures
        errno == 22,
{
    libc::EINVAL
}

/// `libc::PROT_NONE` is 0.
#[verifier::external_body]
pub(crate) fn prot_none() -> (prot: i32)
    ensures
        prot == 0,
{
    libc::PROT_NONE
}

/// `libc::PROT_READ` is 1.
#[verifier::external_body]
pub(crate) fn prot_read() -> (prot: i32)
    ensures
        prot == 1,
{
    libc::PROT_READ
}

/// `libc::PROT_WRITE` is 2.
#[verifier::external_body]
pub(crate) fn prot_write() -> (prot: i32)
    ensures
        prot == 2,
{
    libc::PROT_WRITE
}

/// `libc::MAP_SHARED` is 1.
#[verifier::external_body]
pub(crate) fn map_shared() -> (flag: i32)
    ensures
        flag == 1,
{
    libc::MAP_SHARED
}

/// `libc::MAP_PRIVATE` is 2.
#[verifier::external_body]
pub(crate) fn map_private() -> (flag: i32)
    ensures
        flag == 2,
{
    libc::MAP_PRIVATE
}

/// `libc::MAP_FIXED` is `0x10` on Linux.
#[verifier::external_body]
pub(crate) fn map_fixed() -> (flag: i32)
    ensures
        flag == 0x10,
{
    libc::MAP_FIXED
}

/// `libc::MAP_ANONYMOUS` is `0x20` on Linux, on the architectures that share the generic layout
/// of these flags (x86-64, AArch64 and RISC-V among them).
#[verifier::external_body]
pub(crate) fn map_anonymous() -> (flag: i32)
    ensures
        flag == 0x20,
{
    libc::MAP_ANONYMOUS
}

} // verus!
