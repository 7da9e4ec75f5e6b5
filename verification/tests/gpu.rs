use seccompiler::SeccompAction;
use vhost_user_devices::activate::{
    ActivateError, ActivateEvent, ActivateStep, BackendActivation, Thread,
};
use vhost_user_devices::config::{ConfigError, ConfigRequest};
use vhost_user_devices::device::{
    Announcement, DeviceEvent, Error, SetShmRegionsNotSupported, VhostSharedMemoryRegion,
    VirtioSharedMemoryList,
};
use vhost_user_devices::gpu::{Gpu, ResetEvent, ResetStep};
use vhost_user_devices::lifecycle::{PauseEvent, PauseStep, ResumeEvent, ResumeStep};
use vhost_user_devices::setup::{Negotiated, Setup};
use vhost_user_devices::shmem::MmapRegion;
use vmm_sys_util::eventfd::{EventFd, EFD_NONBLOCK};

type Device = Gpu<&'static str, &'static str, u32>;
type Event = ActivateEvent<&'static str, &'static str, u32, &'static str, &'static str>;

const SHMEM_MAP: u64 = 0x100_0000_0000;
const ALL_PROTOCOL: u64 = 0x100_0000_0228;

fn region(length: u64) -> VhostSharedMemoryRegion {
    VhostSharedMemoryRegion { id: 1, padding: [0; 7], length }
}

fn gpu_setup(iommu: bool) -> Setup {
    let exit_evt = EventFd::new(EFD_NONBLOCK).unwrap();
    let id = "gpu0".to_string();
    Setup::gpu(id, "/run/gpu.sock", SHMEM_MAP, SeccompAction::Trap, exit_evt, iommu)
}

fn negotiated(features: u64, protocol: u64, iommu: bool) -> Negotiated<&'static str> {
    gpu_setup(iommu)
        .connected::<_, ()>(Ok("vu"))
        .unwrap()
        .negotiated::<()>(Ok((features, protocol)))
        .unwrap()
}

fn device(features: u64, protocol: u64, iommu: bool) -> Device {
    Gpu::new::<()>(negotiated(features, protocol, iommu), Ok(vec![region(0x1000)])).unwrap().0
}

fn shared_memory(mem_slot: u32) -> VirtioSharedMemoryList {
    let mapping = MmapRegion::new(0x10_0000 * mem_slot as usize, 0x1000).unwrap();
    VirtioSharedMemoryList { mem_slot, addr: 0x8000_0000, mapping }
}

#[test]
fn setup_connects_then_negotiates() {
    let setup = gpu_setup(false);
    let connect = setup.connect_request();
    assert!(!connect.server);
    assert_eq!(connect.path, "/run/gpu.sock");
    assert_eq!(connect.num_queues, 2);
    assert!(!connect.unlink_socket);
    let connected = setup.connected::<_, ()>(Ok("vu")).unwrap();
    let offer = connected.negotiate_request();
    assert_eq!(offer.avail_features, 0x1_4000_001d);
    assert_eq!(offer.avail_protocol_features, ALL_PROTOCOL);
}

#[test]
fn failed_connection_ends_the_setup() {
    let next = gpu_setup(false).connected::<(), _>(Err("refused"));
    assert!(matches!(next, Err(Error::Backend("refused"))));
}

#[test]
fn failed_negotiation_ends_the_setup() {
    let connected = gpu_setup(false).connected::<_, ()>(Ok("vu")).unwrap();
    assert!(matches!(connected.negotiated(Err("version")), Err(Error::Backend("version"))));
}

#[test]
fn new_gpu_is_inactive() {
    let from = negotiated(0x1_4000_0003, 0x28, true);
    let (gpu, shm): (Device, _) = Gpu::new::<()>(from, Ok(vec![region(77)])).unwrap();
    assert_eq!(shm, region(77));
    assert_eq!(gpu.device_type(), 16);
    assert_eq!(gpu.queue_max_sizes(), &[256, 16]);
    assert_eq!(gpu.common.min_queues, 2);
    assert_eq!(gpu.common.paused_sync, Some(2));
    assert_eq!(gpu.common.avail_features, 0x1_4000_0003);
    assert_eq!(gpu.common.acked_features, 0x4000_0000);
    assert_eq!(gpu.features(), 0x3_4000_0003);
    assert!(gpu.common.pause_evt.is_none() && gpu.common.kill_evt.is_none());
    assert_eq!(gpu.vu_common.vu, Some("vu"));
    assert_eq!(gpu.vu_common.acked_protocol_features, 0x28);
    assert_eq!(gpu.vu_common.socket_path, "/run/gpu.sock");
    assert_eq!(gpu.vu_common.vu_num_queues, 2);
    assert!(gpu.vu_common.vring_bases.is_none());
    assert_eq!(gpu.id, "gpu0");
    assert!(gpu.get_shm_regions().is_none());
    assert!(gpu.backend_req_support);
    assert_eq!(gpu.seccomp_action, SeccompAction::Trap);
    assert!(gpu.guest_memory.is_none() && gpu.epoll_thread.is_none());
}

#[test]
fn gpu_without_iommu_offers_what_was_negotiated() {
    assert_eq!(device(0x1_4000_0003, 0, false).features(), 0x1_4000_0003);
    assert!(!device(0, !0x20, false).backend_req_support);
}

#[test]
fn gpu_needs_exactly_one_region() {
    for count in [0, 2, 3] {
        let regions = vec![region(1); count];
        let result: Result<(Device, _), Error<()>> = Gpu::new(negotiated(0, 0, false), Ok(regions));
        assert_eq!(
            result.err(),
            Some(Error::VhostUserUnexpectedSharedMemoryRegionsCount(1, count))
        );
    }
}

#[test]
fn failed_region_listing_ends_the_setup() {
    let result: Result<(Device, _), _> = Gpu::new(negotiated(0, 0, false), Err("gone"));
    assert_eq!(result.err(), Some(Error::Backend("gone")));
}

#[test]
fn gpu_shares_the_memory_given_last() {
    let mut gpu = device(0, ALL_PROTOCOL, false);
    assert!(gpu.userspace_mappings().is_empty());
    assert_eq!(gpu.set_shm_regions(shared_memory(1)), Err(SetShmRegionsNotSupported));
    assert!(gpu.get_shm_regions().is_none());
    gpu.set_cache(shared_memory(2));
    assert_eq!(gpu.set_shm_regions(shared_memory(3)), Ok(()));
    let shared = gpu.get_shm_regions().unwrap();
    assert_eq!(shared.mem_slot, 3);
    assert_eq!(shared.mapping.addr(), 0x30_0000);
    let mappings = gpu.userspace_mappings();
    assert_eq!(mappings.len(), 1);
    assert_eq!(mappings[0].mem_slot, 3);
    assert_eq!(mappings[0].addr, 0x8000_0000);
    assert_eq!(mappings[0].mapping.addr(), 0x30_0000);
    assert_eq!(mappings[0].mapping.size(), 0x1000);
    assert!(!mappings[0].mergeable);
}

#[test]
fn gpu_reads_config_over_its_connection() {
    let mut gpu = device(0, ALL_PROTOCOL, false);
    assert_eq!(
        gpu.read_config_request(0x1_0000_0008, &[1, 2, 3, 4]),
        Some(ConfigRequest { offset: 8, size: 4, flags: 1, payload: &[1, 2, 3, 4] })
    );
    let mut data = [0u8; 4];
    assert_eq!(gpu.read_config::<()>(&mut data, Ok(vec![4, 3, 2, 1])), Ok(()));
    assert_eq!(data, [4, 3, 2, 1]);
    assert_eq!(gpu.read_config(&mut data, Err("eof")), Err(ConfigError::Backend("eof")));
    gpu.vu_common.vu = None;
    assert_eq!(gpu.read_config_request(8, &[1, 2, 3, 4]), None);
}

#[test]
fn gpu_activates_with_request_channel() {
    let mut gpu = device(0x4000_0000, ALL_PROTOCOL, false);
    gpu.set_cache(shared_memory(5));
    assert!(matches!(gpu.activate(Event::Start), ActivateStep::ActivateCommon));
    match gpu.activate(Event::CommonActivated(Ok("memory"))) {
        ActivateStep::CreateReqHandler(plan) => {
            assert_eq!(plan.handler.mapping.addr(), 0x50_0000);
            assert!(plan.reply_ack);
        }
        _ => panic!("a channel was expected"),
    }
    assert_eq!(gpu.guest_memory, Some("memory"));
    match gpu.activate(Event::ReqHandlerCreated(Ok("channel"))) {
        ActivateStep::ActivateBackend(activation) => assert_eq!(
            activation,
            BackendActivation { acked_features: 0x4000_0000, req_handler: Some("channel") }
        ),
        _ => panic!("the backend was expected"),
    }
    let step = gpu.activate(Event::BackendActivated(Ok(())));
    assert!(matches!(step, ActivateStep::SpawnThread));
    let spawn = gpu.spawn_request();
    assert_eq!(spawn.id, "gpu0");
    assert_eq!(*spawn.seccomp_action, SeccompAction::Trap);
    assert_eq!(spawn.thread, Thread::VirtioVhostGpu);
    assert_eq!(spawn.paused_sync, Some(2));
    let step = gpu.activate(Event::ThreadSpawned(Ok(vec![8, 9])));
    assert!(matches!(step, ActivateStep::Announce(DeviceEvent::Activated)));
    assert_eq!(gpu.epoll_thread, Some(8));
    assert!(matches!(gpu.activate(Event::Announced), ActivateStep::Return(Ok(()))));
    assert_eq!(gpu.epoll_thread, Some(8));
}

#[test]
fn gpu_without_reply_ack_does_not_acknowledge() {
    let mut gpu = device(0, 0x20, false);
    gpu.set_cache(shared_memory(1));
    match gpu.activate(Event::CommonActivated(Ok("memory"))) {
        ActivateStep::CreateReqHandler(plan) => assert!(!plan.reply_ack),
        _ => panic!("a channel was expected"),
    }
}

#[test]
fn gpu_without_shared_memory_or_backend_requests_has_no_channel() {
    let mut no_memory = device(0, ALL_PROTOCOL, false);
    let mut no_requests = device(0, !0x20, false);
    no_requests.set_cache(shared_memory(1));
    for gpu in [&mut no_memory, &mut no_requests] {
        match gpu.activate(Event::CommonActivated(Ok("memory"))) {
            ActivateStep::ActivateBackend(activation) => {
                assert_eq!(activation.req_handler, None);
                assert_eq!(activation.acked_features, 0);
            }
            _ => panic!("the backend was expected"),
        }
    }
}

#[test]
fn gpu_activation_stops_at_each_error() {
    let mut gpu = device(0, ALL_PROTOCOL, false);
    let step = gpu.activate(Event::CommonActivated(Err("queues")));
    assert!(matches!(step, ActivateStep::Return(Err(ActivateError::Device("queues")))));
    assert_eq!(gpu.guest_memory, None);
    let step = gpu.activate(Event::ReqHandlerCreated(Err("socketpair")));
    assert!(matches!(
        step,
        ActivateStep::Return(Err(ActivateError::VhostUserGpuSetup(
            Error::FrontendReqHandlerCreation("socketpair")
        )))
    ));
    let step = gpu.activate(Event::BackendActivated(Err("vring")));
    assert!(matches!(step, ActivateStep::Return(Err(ActivateError::Device("vring")))));
    let step = gpu.activate(Event::ThreadSpawned(Err("seccomp")));
    assert!(matches!(step, ActivateStep::Return(Err(ActivateError::Device("seccomp")))));
    assert_eq!(gpu.epoll_thread, None);
}

#[test]
fn gpu_reset_resumes_resets_and_kills() {
    let mut gpu = device(0, 0, false);
    let kill_evt = EventFd::new(EFD_NONBLOCK).unwrap();
    gpu.common.pause_evt = Some(EventFd::new(EFD_NONBLOCK).unwrap());
    gpu.common.kill_evt = Some(kill_evt.try_clone().unwrap());
    assert!(matches!(gpu.reset::<()>(ResetEvent::Start), ResetStep::ResumeCommon));
    assert!(gpu.common.pause_evt.is_none());
    assert!(matches!(gpu.reset::<()>(ResetEvent::CommonResumed), ResetStep::ResetBackend));
    match gpu.reset::<()>(ResetEvent::BackendReset(Ok(()))) {
        ResetStep::Kill(evt, value) => {
            assert_eq!(value, 1);
            evt.write(value).unwrap();
        }
        _ => panic!("the thread was expected to end"),
    }
    assert_eq!(kill_evt.read().unwrap(), 1);
    assert!(gpu.common.kill_evt.is_none());
    let step = gpu.reset::<()>(ResetEvent::Killed);
    assert!(matches!(step, ResetStep::Announce(DeviceEvent::Reset)));
    assert!(matches!(gpu.reset::<()>(ResetEvent::Announced), ResetStep::Return(Ok(()))));
    assert!(gpu.take_kill_evt().is_none());
}

#[test]
fn gpu_reset_stops_at_a_failing_backend() {
    let mut gpu = device(0, 0, false);
    gpu.common.kill_evt = Some(EventFd::new(EFD_NONBLOCK).unwrap());
    assert!(matches!(gpu.reset::<&str>(ResetEvent::Start), ResetStep::ResetBackend));
    let step = gpu.reset(ResetEvent::BackendReset(Err("broken")));
    assert!(matches!(step, ResetStep::Return(Err("broken"))));
    assert!(gpu.common.kill_evt.is_some());
}

#[test]
fn gpu_reset_without_connection_only_kills() {
    let mut gpu = device(0, 0, false);
    gpu.vu_common.vu = None;
    let step = gpu.reset::<()>(ResetEvent::Start);
    assert!(matches!(step, ResetStep::Announce(DeviceEvent::Reset)));
    gpu.common.kill_evt = Some(EventFd::new(EFD_NONBLOCK).unwrap());
    assert!(matches!(gpu.reset::<()>(ResetEvent::Start), ResetStep::Kill(_, 1)));
    assert!(gpu.common.kill_evt.is_none());
}

#[test]
fn dropped_gpu_kills_its_thread_once() {
    let mut gpu = device(0, 0, false);
    let kill_evt = EventFd::new(EFD_NONBLOCK).unwrap();
    gpu.common.kill_evt = Some(kill_evt.try_clone().unwrap());
    let (evt, value) = gpu.take_kill_evt().unwrap();
    evt.write(value).unwrap();
    assert_eq!(kill_evt.read().unwrap(), 1);
    assert!(gpu.take_kill_evt().is_none());
}

#[test]
fn gpu_pauses_and_resumes() {
    let mut gpu = device(0, 0, false);
    assert_eq!(gpu.pause::<()>(PauseEvent::Start), PauseStep::PauseBackend);
    let resumed = || ResumeEvent::<()>::CommonResumed(Ok(()));
    assert_eq!(gpu.resume(resumed()), ResumeStep::ResumeBackend);
    gpu.epoll_thread = Some(1);
    assert_eq!(gpu.resume(resumed()), ResumeStep::Unpark);
}

#[test]
fn gpu_keeps_its_kind_and_queues() {
    let mut gpu = device(0, ALL_PROTOCOL, false);
    gpu.set_cache(shared_memory(1));
    gpu.activate(Event::CommonActivated(Ok("memory")));
    gpu.activate(Event::ThreadSpawned(Ok(vec![1])));
    gpu.reset::<()>(ResetEvent::Start);
    assert_eq!(gpu.device_type(), 16);
    assert_eq!(gpu.queue_max_sizes(), &[256, 16]);
    assert_eq!(gpu.common.min_queues, 2);
    assert_eq!(gpu.vu_common.vu_num_queues, 2);
    assert!(gpu.backend_req_support);
}

#[test]
fn gpu_is_announced_by_its_id() {
    let gpu = device(0, 0, false);
    assert_eq!(
        gpu.announcement(DeviceEvent::Activated),
        Announcement { source: "virtio-device", event: "activated", id: "gpu0" }
    );
    assert_eq!(
        gpu.announcement(DeviceEvent::Reset),
        Announcement { source: "virtio-device", event: "reset", id: "gpu0" }
    );
}
