//! Feature bits: what a device offers to its backend, what it keeps of the backend's answer, and
//! what it offers to the guest.

use crate::bindings::protocol_f_backend_req;
use crate::bindings::protocol_f_config;
use crate::bindings::protocol_f_reply_ack;
use crate::bindings::vhost_user_f_protocol_features;
use crate::bindings::virtio_f_access_platform;
use crate::bindings::virtio_gpu_f_context_init;
use crate::bindings::virtio_gpu_f_resource_blob;
use crate::bindings::virtio_gpu_f_resource_uuid;
use crate::bindings::virtio_gpu_f_virgl;
use vstd::prelude::*;

verus! {

/// The bit of the feature "complies with version 1 of the virtio specification".
pub const VIRTIO_F_VERSION_1: u32 = 32;

/// Whether bit `i` of `bits` is set.
pub open spec fn has_bit(bits: u64, i: u64) -> bool {
    (bits >> i) & 1 == 1
}

/// The features that a gpu device offers to its backend: `VIRGL` (0), `RESOURCE_UUID` (2),
/// `RESOURCE_BLOB` (3), `CONTEXT_INIT` (4), `PROTOCOL_FEATURES` (30) and `VERSION_1` (32).
pub open spec fn spec_gpu_avail_features() -> u64 {
    0x1_4000_001d
}

/// The protocol features that a device offers to its backend: `REPLY_ACK` (3), `BACKEND_REQ` (5),
/// `CONFIG` (9) and `SHMEM_MAP_CROSVM`, whose number is `shmem_map`.
pub open spec fn spec_avail_protocol_features(shmem_map: u64) -> u64 {
    0x228 | shmem_map
}

/// What of the negotiated features counts as acknowledged before the guest has said anything.
pub open spec fn spec_preacked_features(negotiated: u64) -> u64 {
    negotiated & 0x4000_0000
}

/// The features that the guest is offered.
pub open spec fn spec_guest_features(avail_features: u64, access_platform: bool) -> u64 {
    if access_platform {
        avail_features | 0x2_0000_0000
    } else {
        avail_features
    }
}

/// Whether the backend may send requests to the frontend.
pub open spec fn spec_backend_req_negotiated(acked_protocol_features: u64) -> bool {
    has_bit(acked_protocol_features, 5)
}

/// Whether the backend's requests are to be acknowledged.
pub open spec fn spec_reply_ack_negotiated(acked_protocol_features: u64) -> bool {
    has_bit(acked_protocol_features, 3)
}

/// The features that a gpu device offers to its backend.
pub fn gpu_avail_features() -> (features: u64)
    ensures
        features == spec_gpu_avail_features(),
        features == 0x1_4000_001d,
{
    let virgl = virtio_gpu_f_virgl();
    let uuid = virtio_gpu_f_resource_uuid();
    let blob = virtio_gpu_f_resource_blob();
    let context = virtio_gpu_f_context_init();
    proof {
        assert((1u64 << 32u32) | (1u64 << 0u32) | (1u64 << 2u32) | (1u64 << 3u32) | (1u64 << 4u32)
            | 0x4000_0000u64 == 0x1_4000_001du64) by (bit_vector);
    }
    1u64 << VIRTIO_F_VERSION_1 | 1u64 << virgl | 1u64 << uuid | 1u64 << blob | 1u64 << context
        | vhost_user_f_protocol_features()
}

/// The protocol features that a device offers to its backend, where `shmem_map` is the number of
/// `SHMEM_MAP_CROSVM`.
pub fn avail_protocol_features(shmem_map: u64) -> (features: u64)
    ensures
        features == spec_avail_protocol_features(shmem_map),
        features == 0x228 | shmem_map,
{
    proof {
        assert(0x200u64 | 0x20u64 | shmem_map | 0x8u64 == 0x228u64 | shmem_map) by (bit_vector);
    }
    protocol_f_config() | protocol_f_backend_req() | shmem_map | protocol_f_reply_ack()
}

/// The part of the negotiated features that is acknowledged from the start. The guest never
/// acknowledges `PROTOCOL_FEATURES`, so where the backend took it, it is set here or lost.
pub fn preacked_features(negotiated: u64) -> (acked: u64)
    ensures
        acked == spec_preacked_features(negotiated),
        acked == negotiated & 0x4000_0000,
{
    negotiated & vhost_user_f_protocol_features()
}

/// The features that the guest is offered: those that the backend took, and `ACCESS_PLATFORM`
/// where the device sits behind an IOMMU.
pub fn guest_features(avail_features: u64, access_platform: bool) -> (features: u64)
    ensures
        features == spec_guest_features(avail_features, access_platform),
        access_platform ==> features == avail_features | 0x2_0000_0000,
        !access_platform ==> features == avail_features,
{
    let mut features: u64 = avail_features;
    if access_platform {
        proof {
            assert(1u64 << 33u32 == 0x2_0000_0000u64) by (bit_vector);
        }
        features = features | 1u64 << virtio_f_access_platform();
    }
    features
}

/// Whether the backend may send requests to the frontend.
pub fn backend_req_negotiated(acked_protocol_features: u64) -> (negotiated: bool)
    ensures
        negotiated == spec_backend_req_negotiated(acked_protocol_features),
        negotiated == (acked_protocol_features & 0x20 != 0),
{
    proof {
        assert((acked_protocol_features & 0x20 != 0) == ((acked_protocol_features >> 5u64) & 1
            == 1)) by (bit_vector);
    }
    acked_protocol_features & protocol_f_backend_req() != 0
}

/// Whether the backend's requests are to be acknowledged.
pub fn reply_ack_negotiated(acked_protocol_features: u64) -> (negotiated: bool)
    ensures
        negotiated == spec_reply_ack_negotiated(acked_protocol_features),
        negotiated == (acked_protocol_features & 0x8 != 0),
{
    proof {
        assert((acked_protocol_features & 0x8 != 0) == ((acked_protocol_features >> 3u64) & 1
            == 1)) by (bit_vector);
    }
    acked_protocol_features & protocol_f_reply_ack() != 0
}

/// A gpu device offers its backend exactly six features.
pub proof fn law_gpu_avail_features(i: u64)
    requires
        i < 64,
    ensures
        has_bit(spec_gpu_avail_features(), i) <==> i == 0 || i == 2 || i == 3 || i == 4 || i == 30
            || i == 32,
{
    assert((0x1_4000_001du64 >> i) & 1 == 1 <==> i == 0 || i == 2 || i == 3 || i == 4 || i == 30
        || i == 32) by (bit_vector)
        requires
            i < 64,
    ;
}

/// A device offers its backend exactly three protocol features besides those of `shmem_map`.
pub proof fn law_avail_protocol_features(shmem_map: u64, i: u64)
    requires
        i < 64,
    ensures
        has_bit(spec_avail_protocol_features(shmem_map), i) <==> i == 3 || i == 5 || i == 9
            || has_bit(shmem_map, i),
{
    assert(((0x228u64 | shmem_map) >> i) & 1 == 1 <==> i == 3 || i == 5 || i == 9 || (shmem_map
        >> i) & 1 == 1) by (bit_vector)
        requires
            i < 64,
    ;
}

/// The backend may send requests exactly where it took `BACKEND_REQ`, and they are acknowledged
/// exactly where it took `REPLY_ACK`. No other protocol feature has a say in either.
pub proof fn law_requests_go_by_their_own_bits(acked_protocol_features: u64, other: u64)
    ensures
        spec_backend_req_negotiated(acked_protocol_features) <==> acked_protocol_features & 0x20
            == 0x20,
        spec_reply_ack_negotiated(acked_protocol_features) <==> acked_protocol_features & 0x8
            == 0x8,
        acked_protocol_features & 0x20 == other & 0x20 ==> spec_backend_req_negotiated(other)
            == spec_backend_req_negotiated(acked_protocol_features),
        acked_protocol_features & 0x8 == other & 0x8 ==> spec_reply_ack_negotiated(other)
            == spec_reply_ack_negotiated(acked_protocol_features),
{
    assert(forall|x: u64|
        #![trigger x & 0x20]
        (x >> 5u64) & 1 == 1 <==> x & 0x20 == 0x20) by (bit_vector);
    assert(forall|x: u64| #![trigger x & 0x8] (x >> 3u64) & 1 == 1 <==> x & 0x8 == 0x8)
        by (bit_vector);
}

/// Before the guest has spoken, `PROTOCOL_FEATURES` is acknowledged exactly where the backend
/// took it, and no other feature is.
pub proof fn law_preacked_features(negotiated: u64, i: u64)
    requires
        i < 64,
    ensures
        has_bit(spec_preacked_features(negotiated), i) <==> i == 30 && has_bit(negotiated, 30),
{
    assert(((negotiated & 0x4000_0000) >> i) & 1 == 1 <==> i == 30 && (negotiated >> 30u64) & 1
        == 1) by (bit_vector)
        requires
            i < 64,
    ;
}

/// The guest is offered every feature that the backend took. Beyond those it is offered
/// `ACCESS_PLATFORM` where the device sits behind an IOMMU, and nothing else.
pub proof fn law_guest_features(avail_features: u64, access_platform: bool, i: u64)
    requires
        i < 64,
    ensures
        has_bit(spec_guest_features(avail_features, access_platform), i) <==> has_bit(
            avail_features,
            i,
        ) || (access_platform && i == 33),
{
    assert(((avail_features | 0x2_0000_0000) >> i) & 1 == 1 <==> (avail_features >> i) & 1 == 1 || i
        == 33) by (bit_vector)
        requires
            i < 64,
    ;
}

} // verus!
