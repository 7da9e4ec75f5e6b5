use vhost::vhost_user::message::{VhostUserProtocolFeatures, VhostUserVirtioFeatures};
use vhost_user_devices::features::{
    avail_protocol_features, backend_req_negotiated, gpu_avail_features, guest_features,
    preacked_features, reply_ack_negotiated, VIRTIO_F_VERSION_1,
};
use virtio_bindings::virtio_config::{VIRTIO_F_ACCESS_PLATFORM, VIRTIO_F_VERSION_1 as VERSION_1};
use virtio_bindings::virtio_gpu::{
    VIRTIO_GPU_F_CONTEXT_INIT, VIRTIO_GPU_F_EDID, VIRTIO_GPU_F_RESOURCE_BLOB,
    VIRTIO_GPU_F_RESOURCE_UUID, VIRTIO_GPU_F_VIRGL,
};

fn bits_of(features: u64) -> Vec<u32> {
    (0..64).filter(|i| features >> i & 1 == 1).collect()
}

#[test]
fn gpu_offers_six_features() {
    assert_eq!(gpu_avail_features(), 0x1_4000_001d);
    assert_eq!(bits_of(gpu_avail_features()), vec![0, 2, 3, 4, 30, 32]);
    assert_eq!(
        gpu_avail_features(),
        1 << VERSION_1
            | 1 << VIRTIO_GPU_F_VIRGL
            | 1 << VIRTIO_GPU_F_RESOURCE_UUID
            | 1 << VIRTIO_GPU_F_RESOURCE_BLOB
            | 1 << VIRTIO_GPU_F_CONTEXT_INIT
            | VhostUserVirtioFeatures::PROTOCOL_FEATURES.bits()
    );
    assert_eq!(gpu_avail_features() & 1 << VIRTIO_GPU_F_EDID, 0);
    assert_eq!(VIRTIO_F_VERSION_1, VERSION_1);
}

#[test]
fn devices_offer_four_protocol_features() {
    let shmem_map = 1 << 40;
    assert_eq!(avail_protocol_features(shmem_map), 0x100_0000_0228);
    assert_eq!(bits_of(avail_protocol_features(shmem_map)), vec![3, 5, 9, 40]);
    assert_eq!(
        avail_protocol_features(shmem_map),
        VhostUserProtocolFeatures::CONFIG.bits()
            | VhostUserProtocolFeatures::BACKEND_REQ.bits()
            | shmem_map
            | VhostUserProtocolFeatures::REPLY_ACK.bits()
    );
    assert_eq!(avail_protocol_features(0), 0x228);
    assert_eq!(avail_protocol_features(0x8), 0x228);
}

#[test]
fn only_protocol_features_is_preacked() {
    assert_eq!(preacked_features(u64::MAX), 0x4000_0000);
    assert_eq!(preacked_features(0x1_4000_001d), 0x4000_0000);
    assert_eq!(preacked_features(!0x4000_0000), 0);
    assert_eq!(preacked_features(0), 0);
}

#[test]
fn access_platform_is_offered_behind_an_iommu() {
    assert_eq!(guest_features(0x1_0000_0001, false), 0x1_0000_0001);
    assert_eq!(guest_features(0x1_0000_0001, true), 0x3_0000_0001);
    assert_eq!(guest_features(0, true), 1 << VIRTIO_F_ACCESS_PLATFORM);
    assert_eq!(guest_features(0x2_0000_0000, true), 0x2_0000_0000);
    assert_eq!(guest_features(0x2_0000_0000, false), 0x2_0000_0000);
}

#[test]
fn single_protocol_features_are_found() {
    assert!(backend_req_negotiated(0x20));
    assert!(backend_req_negotiated(u64::MAX));
    assert!(!backend_req_negotiated(!0x20));
    assert!(reply_ack_negotiated(0x8));
    assert!(!reply_ack_negotiated(!0x8));
    assert!(!reply_ack_negotiated(0));
}
