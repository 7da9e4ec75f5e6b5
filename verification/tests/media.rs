use seccompiler::SeccompAction;
use vhost_user_devices::activate::{ActivateError, ActivateEvent, ActivateStep, Thread};
use vhost_user_devices::config::{ConfigError, ConfigRequest};
use vhost_user_devices::device::{
    DeviceEvent, Error, SetShmRegionsNotSupported, VirtioSharedMemoryList,
};
use vhost_user_devices::lifecycle::{PauseEvent, PauseStep, ResumeEvent, ResumeStep};
use vhost_user_devices::media::Media;
use vhost_user_devices::setup::{Negotiated, Setup};
use vhost_user_devices::shmem::MmapRegion;
use vmm_sys_util::eventfd::{EventFd, EFD_NONBLOCK};

type Device = Media<&'static str, &'static str, u32>;
type Event = ActivateEvent<&'static str, &'static str, u32, &'static str, &'static str>;

const SHMEM_MAP: u64 = 0x100_0000_0000;
const ALL_PROTOCOL: u64 = 0x100_0000_0228;

fn media_setup(features: u64, iommu: bool) -> Setup {
    let exit_evt = EventFd::new(EFD_NONBLOCK).unwrap();
    let id = "media0".to_string();
    let path = "/run/media.sock";
    Setup::media(id, path, features, SHMEM_MAP, SeccompAction::Log, exit_evt, iommu)
}

fn negotiated(features: u64, protocol: u64, iommu: bool) -> Negotiated<&'static str> {
    media_setup(features, iommu)
        .connected::<_, ()>(Ok("vu"))
        .unwrap()
        .negotiated::<()>(Ok((features, protocol)))
        .unwrap()
}

fn device(features: u64, protocol: u64, iommu: bool) -> Device {
    Media::new(negotiated(features, protocol, iommu)).0
}

fn shared_memory(mem_slot: u32) -> VirtioSharedMemoryList {
    let mapping = MmapRegion::new(0x10_0000 * mem_slot as usize, 0x1000).unwrap();
    VirtioSharedMemoryList { mem_slot, addr: 0x8000_0000, mapping }
}

#[test]
fn media_offers_the_default_features() {
    let setup = media_setup(0x1_7000_0000, false);
    assert_eq!(setup.connect_request().path, "/run/media.sock");
    assert_eq!(setup.connect_request().num_queues, 2);
    let offer = setup.connected::<_, ()>(Ok("vu")).unwrap().negotiate_request();
    assert_eq!(offer.avail_features, 0x1_7000_0000);
    assert_eq!(offer.avail_protocol_features, ALL_PROTOCOL);
}

#[test]
fn new_media_is_inactive() {
    let (media, shm): (Device, _) = Media::new(negotiated(0x1_4000_0000, 0x28, true));
    assert_eq!(shm.id, 0);
    assert_eq!(shm.padding, [0; 7]);
    assert_eq!(shm.length, 256 * 1024 * 1024);
    assert_eq!(media.device_type(), 48);
    assert_eq!(media.queue_max_sizes(), &[256, 256]);
    assert_eq!(media.common.min_queues, 2);
    assert_eq!(media.common.paused_sync, Some(2));
    assert_eq!(media.common.acked_features, 0x4000_0000);
    assert_eq!(media.features(), 0x3_4000_0000);
    assert!(media.common.pause_evt.is_none() && media.common.kill_evt.is_none());
    assert_eq!(media.vu_common.vu, Some("vu"));
    assert_eq!(media.vu_common.acked_protocol_features, 0x28);
    assert_eq!(media.vu_common.socket_path, "/run/media.sock");
    assert_eq!(media.vu_common.vu_num_queues, 2);
    assert_eq!(media.id, "media0");
    assert!(media.get_shm_regions().is_none());
    assert!(media.guest_memory.is_none() && media.epoll_thread.is_none());
}

#[test]
fn media_without_iommu_offers_what_was_negotiated() {
    assert_eq!(device(0x1_4000_0003, 0, false).features(), 0x1_4000_0003);
}

#[test]
fn media_never_lists_its_shared_memory() {
    let mut media = device(0, ALL_PROTOCOL, false);
    assert_eq!(media.set_shm_regions(shared_memory(1)), Err(SetShmRegionsNotSupported));
    media.set_cache(shared_memory(2));
    assert!(media.userspace_mappings().is_empty());
    assert_eq!(media.set_shm_regions(shared_memory(3)), Ok(()));
    assert_eq!(media.get_shm_regions().unwrap().mem_slot, 3);
    assert!(media.userspace_mappings().is_empty());
}

#[test]
fn media_reads_config_over_its_connection() {
    let mut media = device(0, ALL_PROTOCOL, false);
    assert_eq!(
        media.read_config_request(8, &[1, 2, 3, 4]),
        Some(ConfigRequest { offset: 8, size: 4, flags: 1, payload: &[1, 2, 3, 4] })
    );
    let mut data = [0u8; 2];
    let long = media.read_config::<()>(&mut data, Ok(vec![7, 8, 9]));
    assert_eq!(long, Err(ConfigError::WriteZero));
    assert_eq!(data, [7, 8]);
    media.vu_common.vu = None;
    assert_eq!(media.read_config_request(8, &[1, 2, 3, 4]), None);
}

#[test]
fn media_starts_every_queue_at_zero() {
    let mut media = device(0, ALL_PROTOCOL, false);
    media.set_cache(shared_memory(1));
    assert!(matches!(media.activate(Event::Start, 3), ActivateStep::ActivateCommon));
    let step = media.activate(Event::CommonActivated(Ok("memory")), 3);
    assert!(matches!(step, ActivateStep::CreateReqHandler(_)));
    assert!(media.vu_common.vring_bases.is_none());
    match media.activate(Event::ReqHandlerCreated(Ok("channel")), 3) {
        ActivateStep::ActivateBackend(activation) => {
            assert_eq!(activation.req_handler, Some("channel"));
        }
        _ => panic!("the backend was expected"),
    }
    assert_eq!(media.vu_common.vring_bases, Some(vec![0, 0, 0]));
    let step = media.activate(Event::BackendActivated(Ok(())), 3);
    assert!(matches!(step, ActivateStep::SpawnThread));
    assert_eq!(media.spawn_request().thread, Thread::VirtioVhostMedia);
    assert_eq!(media.spawn_request().id, "media0");
    let step = media.activate(Event::ThreadSpawned(Ok(vec![6])), 3);
    assert!(matches!(step, ActivateStep::Announce(DeviceEvent::Activated)));
    let told = media.announcement(DeviceEvent::Activated);
    assert_eq!((told.source, told.event, told.id), ("virtio-device", "activated", "media0"));
    assert!(matches!(media.activate(Event::Announced, 3), ActivateStep::Return(Ok(()))));
    assert_eq!(media.epoll_thread, Some(6));
}

#[test]
fn media_keeps_known_queue_indices() {
    let mut media = device(0, 0, false);
    media.vu_common.vring_bases = Some(vec![5, 7]);
    let step = media.activate(Event::CommonActivated(Ok("memory")), 2);
    assert!(matches!(step, ActivateStep::ActivateBackend(_)));
    assert_eq!(media.vu_common.vring_bases, Some(vec![5, 7]));
}

#[test]
fn media_activation_stops_at_each_error() {
    let mut media = device(0, ALL_PROTOCOL, false);
    let step = media.activate(Event::CommonActivated(Err("queues")), 2);
    assert!(matches!(step, ActivateStep::Return(Err(ActivateError::Device("queues")))));
    assert_eq!(media.guest_memory, None);
    let step = media.activate(Event::ReqHandlerCreated(Err("socketpair")), 2);
    assert!(matches!(
        step,
        ActivateStep::Return(Err(ActivateError::VhostUserSetup(
            Error::FrontendReqHandlerCreation("socketpair")
        )))
    ));
    assert!(media.vu_common.vring_bases.is_none());
    let step = media.activate(Event::BackendActivated(Err("vring")), 2);
    assert!(matches!(step, ActivateStep::Return(Err(ActivateError::Device("vring")))));
    let step = media.activate(Event::ThreadSpawned(Err("seccomp")), 2);
    assert!(matches!(step, ActivateStep::Return(Err(ActivateError::Device("seccomp")))));
    assert_eq!(media.epoll_thread, None);
}

#[test]
fn media_pauses_and_resumes() {
    let mut media = device(0, 0, false);
    assert_eq!(media.pause::<()>(PauseEvent::BackendPaused(Ok(()))), PauseStep::PauseCommon);
    media.epoll_thread = Some(1);
    let resumed = ResumeEvent::<()>::CommonResumed(Ok(()));
    assert_eq!(media.resume(resumed), ResumeStep::Unpark);
}

#[test]
fn media_keeps_its_kind_and_queues() {
    let mut media = device(0, ALL_PROTOCOL, false);
    media.set_cache(shared_memory(1));
    media.activate(Event::CommonActivated(Ok("memory")), 2);
    media.activate(Event::ReqHandlerCreated(Ok("channel")), 2);
    media.activate(Event::ThreadSpawned(Ok(vec![1])), 2);
    assert_eq!(media.device_type(), 48);
    assert_eq!(media.queue_max_sizes(), &[256, 256]);
    assert_eq!(media.common.min_queues, 2);
    assert_eq!(media.vu_common.vu_num_queues, 2);
}
