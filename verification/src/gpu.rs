//! The virtio-gpu device.

use crate::activate::req_handler_plan;
use crate::activate::spec_req_handler_plan;
use crate::activate::ActivateContext;
use crate::activate::ActivateError;
use crate::activate::ActivateEvent;
use crate::activate::ActivateReplies;
use crate::activate::ActivateStep;
use crate::activate::SpawnRequest;
use crate::activate::Thread;
use crate::config::config_request;
use crate::config::overwritten;
use crate::config::spec_config_request;
use crate::config::store_config;
use crate::config::ConfigError;
use crate::config::ConfigRequest;
use crate::device::announcement;
use crate::device::Announcement;
use crate::device::DeviceEvent;
use crate::device::Error;
use crate::device::SetShmRegionsNotSupported;
use crate::device::UserspaceMapping;
use crate::device::VhostSharedMemoryRegion;
use crate::device::VhostUserCommon;
use crate::device::VirtioCommon;
use crate::device::VirtioSharedMemoryList;
use crate::device::NUM_QUEUES;
use crate::features::backend_req_negotiated;
use crate::features::guest_features;
use crate::features::has_bit;
use crate::features::law_guest_features;
use crate::features::law_preacked_features;
use crate::features::law_requests_go_by_their_own_bits;
use crate::features::preacked_features;
use crate::features::spec_backend_req_negotiated;
use crate::features::spec_guest_features;
use crate::features::spec_preacked_features;
use crate::lifecycle::pause_step;
use crate::lifecycle::resume_step;
use crate::lifecycle::spec_pause;
use crate::lifecycle::spec_resume;
use crate::lifecycle::PauseEvent;
use crate::lifecycle::PauseStep;
use crate::lifecycle::ResumeEvent;
use crate::lifecycle::ResumeStep;
use crate::setup::Negotiated;
use seccompiler::SeccompAction;
use vmm_sys_util::eventfd::EventFd;
use vstd::prelude::*;

verus! {

/// The kind of a gpu device.
pub const VIRTIO_ID_GPU: u32 = 16;

/// What has happened so far when a device is reset.
#[derive(Debug, PartialEq, Eq)]
pub enum ResetEvent<E> {
    /// Nothing yet.
    Start,
    /// The device's own part was resumed, or could not be: it makes no difference.
    CommonResumed,
    /// The backend was reset.
    BackendReset(Result<(), E>),
    /// The device's thread was told to end, or could not be: it makes no difference.
    Killed,
    /// The reset was announced.
    Announced,
}

/// What is to be done next when a device is reset.
#[derive(Debug)]
pub enum ResetStep<E> {
    /// Resume the device's own part.
    ResumeCommon,
    /// Reset the backend.
    ResetBackend,
    /// Write this number to this event, which tells the device's thread to end.
    Kill(EventFd, u64),
    /// Tell the monitor's observers.
    Announce(DeviceEvent),
    /// The device is reset, or the backend could not be.
    Return(Result<(), E>),
}

/// A gpu device. `V` is the connection to its backend, `M` the guest's memory and `T` a thread.
pub struct Gpu<V, M, T> {
    pub common: VirtioCommon,
    pub vu_common: VhostUserCommon<V>,
    pub id: String,
    /// The memory that the device shares with the guest.
    pub cache: Option<VirtioSharedMemoryList>,
    /// Whether the backend may send requests.
    pub backend_req_support: bool,
    pub seccomp_action: SeccompAction,
    pub guest_memory: Option<M>,
    /// Handles reconnections of the backend.
    pub epoll_thread: Option<T>,
    pub exit_evt: EventFd,
    /// Whether the device sits behind an IOMMU.
    pub iommu: bool,
}

impl<V, M, T> Gpu<V, M, T> {
    /// What holds of a new gpu device, and what the library's functions keep.
    pub open spec fn wf(self) -> bool {
        &&& self.common.device_type == VIRTIO_ID_GPU
        &&& self.common.queue_sizes@ == seq![256u16, 16u16]
        &&& self.common.min_queues == 2
        &&& self.common.paused_sync == Some(2usize)
        &&& self.vu_common.vu_num_queues == 2
        &&& self.backend_req_support == spec_backend_req_negotiated(
            self.vu_common.acked_protocol_features,
        )
    }

    /// The device as it comes out of its setup: inactive, not shared with the guest and with
    /// everything else as `from` has it.
    pub open spec fn created_from(self, from: Negotiated<V>) -> bool {
        &&& self.wf()
        &&& self.common.avail_features == from.acked_features
        &&& self.common.acked_features == spec_preacked_features(from.acked_features)
        &&& self.common.pause_evt is None
        &&& self.common.kill_evt is None
        &&& self.vu_common.vu == Some(from.vu)
        &&& self.vu_common.acked_protocol_features == from.acked_protocol_features
        &&& self.vu_common.socket_path == from.setup.path
        &&& self.vu_common.vring_bases is None
        &&& self.id == from.setup.id
        &&& self.cache is None
        &&& self.seccomp_action == from.setup.seccomp_action
        &&& self.guest_memory is None
        &&& self.epoll_thread is None
        &&& self.exit_evt == from.setup.exit_evt
        &&& self.iommu == from.setup.access_platform
    }

    /// The device with this memory to share.
    pub open spec fn with_cache(self, cache: VirtioSharedMemoryList) -> Self {
        Gpu { cache: Some(cache), ..self }
    }

    /// The device once it has given up the event that tells its thread to end.
    pub open spec fn without_kill_evt(self) -> Self {
        Gpu { common: VirtioCommon { kill_evt: None, ..self.common }, ..self }
    }

    /// The memory of the monitor that is to be visible in the guest.
    pub open spec fn spec_userspace_mappings(self) -> Seq<UserspaceMapping> {
        match self.cache {
            Some(cache) => seq![
                UserspaceMapping {
                    mem_slot: cache.mem_slot,
                    addr: cache.addr,
                    mapping: cache.mapping,
                    mergeable: false,
                },
            ],
            None => Seq::empty(),
        }
    }

    /// What of the device decides about its activation.
    pub open spec fn context(self) -> ActivateContext {
        ActivateContext {
            plan: spec_req_handler_plan(
                self.backend_req_support,
                self.cache,
                self.vu_common.acked_protocol_features,
            ),
            acked_features: self.common.acked_features,
            thread: Thread::VirtioVhostGpu,
        }
    }

    /// Makes the device once its backend has said which shared memory regions it has. It must
    /// have exactly one, which is handed out with the device.
    pub fn new<E>(
        from: Negotiated<V>,
        shm_regions: Result<Vec<VhostSharedMemoryRegion>, E>,
    ) -> (gpu: Result<(Gpu<V, M, T>, VhostSharedMemoryRegion), Error<E>>)
        ensures
            match shm_regions {
                Err(e) => gpu == Err::<(Gpu<V, M, T>, VhostSharedMemoryRegion), Error<E>>(
                    Error::Backend(e),
                ),
                Ok(shm_regions) => match gpu {
                    Ok((gpu, region)) => {
                        &&& shm_regions@.len() == 1
                        &&& region == shm_regions@[0]
                        &&& gpu.created_from(from)
                        &&& gpu.common.device_type == 16
                        &&& gpu.common.avail_features == from.acked_features
                        &&& gpu.common.acked_features == from.acked_features & 0x4000_0000
                        &&& gpu.common.queue_sizes@ == seq![256u16, 16u16]
                        &&& gpu.common.min_queues == 2
                        &&& gpu.common.paused_sync == Some(2usize)
                        &&& gpu.common.pause_evt is None
                        &&& gpu.common.kill_evt is None
                        &&& gpu.vu_common.vu == Some(from.vu)
                        &&& gpu.vu_common.acked_protocol_features == from.acked_protocol_features
                        &&& gpu.vu_common.socket_path == from.setup.path
                        &&& gpu.vu_common.vu_num_queues == 2
                        &&& gpu.vu_common.vring_bases is None
                        &&& gpu.id == from.setup.id
                        &&& gpu.cache is None
                        &&& gpu.backend_req_support == (from.acked_protocol_features & 0x20 != 0)
                        &&& gpu.seccomp_action == from.setup.seccomp_action
                        &&& gpu.guest_memory is None
                        &&& gpu.epoll_thread is None
                        &&& gpu.exit_evt == from.setup.exit_evt
                        &&& gpu.iommu == from.setup.access_platform
                    },
                    Err(e) => {
                        &&& shm_regions@.len() != 1
                        &&& e == Error::<E>::VhostUserUnexpectedSharedMemoryRegionsCount(
                            1,
                            shm_regions@.len() as usize,
                        )
                    },
                },
            },
    {
        let shm_regions = match shm_regions {
            Ok(shm_regions) => shm_regions,
            Err(e) => return Err(Error::Backend(e)),
        };
        if shm_regions.len() != 1 {
            return Err(Error::VhostUserUnexpectedSharedMemoryRegionsCount(1, shm_regions.len()));
        }
        let shm_region = shm_regions[0];
        let queue_sizes: Vec<u16> = vec![256, 16];
        let gpu = Gpu {
            common: VirtioCommon {
                device_type: VIRTIO_ID_GPU,
                avail_features: from.acked_features,
                acked_features: preacked_features(from.acked_features),
                queue_sizes,
                min_queues: NUM_QUEUES,
                paused_sync: Some(NUM_QUEUES as usize),
                pause_evt: None,
                kill_evt: None,
            },
            vu_common: VhostUserCommon {
                vu: Some(from.vu),
                acked_protocol_features: from.acked_protocol_features,
                socket_path: from.setup.path,
                vu_num_queues: NUM_QUEUES as usize,
                vring_bases: None,
            },
            id: from.setup.id,
            cache: None,
            backend_req_support: backend_req_negotiated(from.acked_protocol_features),
            seccomp_action: from.setup.seccomp_action,
            guest_memory: None,
            epoll_thread: None,
            exit_evt: from.setup.exit_evt,
            iommu: from.setup.access_platform,
        };
        Ok((gpu, shm_region))
    }

    /// Gives the device the memory that it shares with the guest.
    pub fn set_cache(&mut self, cache: VirtioSharedMemoryList)
        ensures
            *final(self) == old(self).with_cache(cache),
            *final(self) == (Gpu { cache: Some(cache), ..*old(self) }),
    {
        self.cache = Some(cache);
    }

    /// The kind of the device.
    pub fn device_type(&self) -> (device_type: u32)
        ensures
            device_type == self.common.device_type,
    {
        self.common.device_type
    }

    /// The largest size of each queue.
    pub fn queue_max_sizes(&self) -> (sizes: &[u16])
        ensures
            sizes@ == self.common.queue_sizes@,
    {
        self.common.queue_sizes.as_slice()
    }

    /// The features that the guest is offered.
    pub fn features(&self) -> (features: u64)
        ensures
            features == spec_guest_features(self.common.avail_features, self.iommu),
            self.iommu ==> features == self.common.avail_features | 0x2_0000_0000,
            !self.iommu ==> features == self.common.avail_features,
    {
        guest_features(self.common.avail_features, self.iommu)
    }

    /// What to ask the backend for when the guest reads configuration space from `offset` on into
    /// `data`. Without a connection there is nobody to ask.
    pub fn read_config_request<'a>(&self, offset: u64, data: &'a [u8]) -> (request: Option<
        ConfigRequest<'a>,
    >)
        ensures
            request == if self.vu_common.vu is Some {
                Some(spec_config_request(offset, data))
            } else {
                None
            },
            request is Some <==> self.vu_common.vu is Some,
            request matches Some(request) ==> {
                &&& request.offset == offset % 0x1_0000_0000
                &&& request.size == data@.len() % 0x1_0000_0000
                &&& request.flags == 1
                &&& request.payload@ == data@
            },
    {
        if self.vu_common.vu.is_some() {
            Some(config_request(offset, data))
        } else {
            None
        }
    }

    /// Puts the backend's answer into the guest's buffer.
    pub fn read_config<E>(&self, data: &mut [u8], reply: Result<Vec<u8>, E>) -> (result: Result<
        (),
        ConfigError<E>,
    >)
        ensures
            match reply {
                Ok(config) => {
                    &&& final(data)@ == overwritten(old(data)@, config@)
                    &&& final(data)@.len() == old(data)@.len()
                    &&& forall|i: int|
                        0 <= i < old(data)@.len() ==> #[trigger] final(data)@[i] == if i
                            < config@.len() {
                            config@[i]
                        } else {
                            old(data)@[i]
                        }
                    &&& result == if config@.len() <= old(data)@.len() {
                        Ok::<(), ConfigError<E>>(())
                    } else {
                        Err(ConfigError::WriteZero)
                    }
                },
                Err(e) => {
                    &&& final(data)@ == old(data)@
                    &&& result == Err::<(), ConfigError<E>>(ConfigError::Backend(e))
                },
            },
    {
        store_config(data, reply)
    }

    /// The memory that the device shares with the guest.
    pub fn get_shm_regions(&self) -> (regions: Option<VirtioSharedMemoryList>)
        ensures
            regions == self.cache,
    {
        self.cache
    }

    /// Replaces the memory that the device shares with the guest. A device that shares none is
    /// left as it is.
    pub fn set_shm_regions(&mut self, shm_regions: VirtioSharedMemoryList) -> (result: Result<
        (),
        SetShmRegionsNotSupported,
    >)
        ensures
            old(self).cache is Some ==> {
                &&& result is Ok
                &&& *final(self) == old(self).with_cache(shm_regions)
                &&& *final(self) == Gpu { cache: Some(shm_regions), ..*old(self) }
            },
            old(self).cache is None ==> {
                &&& result is Err
                &&& *final(self) == *old(self)
            },
    {
        if self.cache.is_some() {
            self.cache = Some(shm_regions);
            Ok(())
        } else {
            Err(SetShmRegionsNotSupported)
        }
    }

    /// The memory of the monitor that is to be visible in the guest: what the device shares.
    pub fn userspace_mappings(&self) -> (mappings: Vec<UserspaceMapping>)
        ensures
            mappings@ == self.spec_userspace_mappings(),
            self.cache is None ==> mappings@.len() == 0,
            self.cache matches Some(cache) ==> {
                &&& mappings@.len() == 1
                &&& mappings@[0].mem_slot == cache.mem_slot
                &&& mappings@[0].addr == cache.addr
                &&& mappings@[0].mapping == cache.mapping
                &&& !mappings@[0].mergeable
            },
    {
        let mut mappings: Vec<UserspaceMapping> = Vec::new();
        if let Some(cache) = self.cache {
            mappings.push(
                UserspaceMapping {
                    mem_slot: cache.mem_slot,
                    addr: cache.addr,
                    mapping: cache.mapping,
                    mergeable: false,
                },
            );
        }
        mappings
    }

    /// The device after `event`: it learns the guest's memory once its own part is active, and its
    /// thread once that runs.
    pub open spec fn spec_activate_state<R, A, H>(
        self,
        event: ActivateEvent<M, R, T, A, H>,
    ) -> Self {
        Gpu {
            guest_memory: match event.learned().mem {
                Some(mem) => Some(mem),
                None => self.guest_memory,
            },
            epoll_thread: match event.learned().threads {
                Some(threads) => Some(threads@[0]),
                None => self.epoll_thread,
            },
            ..self
        }
    }

    /// The step that follows `event` when the device is activated. Where threads were started,
    /// there is at least one.
    pub fn activate<R, A, H>(&mut self, event: ActivateEvent<M, R, T, A, H>) -> (step: ActivateStep<
        R,
        A,
        H,
    >)
        requires
            event matches ActivateEvent::ThreadSpawned(Ok(threads)) ==> threads@.len() > 0,
        ensures
            step == old(self).context().spec_step(event),
            *final(self) == old(self).spec_activate_state(event),
            match event {
                ActivateEvent::Start => step is ActivateCommon,
                ActivateEvent::CommonActivated(Ok(_)) => if old(self).backend_req_support
                    && old(self).cache is Some {
                    step is CreateReqHandler
                } else {
                    step matches ActivateStep::ActivateBackend(activation)
                        && activation.req_handler is None
                },
                ActivateEvent::CommonActivated(Err(e)) => step == ActivateStep::<R, A, H>::Return(
                    Err(ActivateError::Device(e)),
                ),
                ActivateEvent::ReqHandlerCreated(Ok(channel)) => {
                    step matches ActivateStep::ActivateBackend(activation)
                        && activation.req_handler == Some(channel)
                },
                ActivateEvent::ReqHandlerCreated(Err(e)) => step == ActivateStep::<R, A, H>::Return(
                    Err(ActivateError::VhostUserGpuSetup(Error::FrontendReqHandlerCreation(e))),
                ),
                ActivateEvent::BackendActivated(Ok(_)) => step is SpawnThread,
                ActivateEvent::BackendActivated(Err(e)) => step == ActivateStep::<R, A, H>::Return(
                    Err(ActivateError::Device(e)),
                ),
                ActivateEvent::ThreadSpawned(Ok(_)) => step == ActivateStep::<R, A, H>::Announce(
                    DeviceEvent::Activated,
                ),
                ActivateEvent::ThreadSpawned(Err(e)) => step == ActivateStep::<R, A, H>::Return(
                    Err(ActivateError::Device(e)),
                ),
                ActivateEvent::Announced => step == ActivateStep::<R, A, H>::Return(Ok(())),
            },
            step matches ActivateStep::CreateReqHandler(plan) ==> {
                &&& plan.handler.mapping == old(self).cache->0.mapping
                &&& plan.reply_ack == (old(self).vu_common.acked_protocol_features & 0x8 != 0)
            },
            step matches ActivateStep::ActivateBackend(activation) ==> activation.acked_features
                == old(self).common.acked_features,
            *final(self) == (Gpu {
                guest_memory: match event {
                    ActivateEvent::CommonActivated(Ok(mem)) => Some(mem),
                    _ => old(self).guest_memory,
                },
                epoll_thread: match event {
                    ActivateEvent::ThreadSpawned(Ok(threads)) => Some(threads@[0]),
                    _ => old(self).epoll_thread,
                },
                ..*old(self)
            }),
    {
        let context = ActivateContext {
            plan: req_handler_plan(
                self.backend_req_support,
                &self.cache,
                self.vu_common.acked_protocol_features,
            ),
            acked_features: self.common.acked_features,
            thread: Thread::VirtioVhostGpu,
        };
        let (step, learned) = context.step(event);
        if let Some(mem) = learned.mem {
            self.guest_memory = Some(mem);
        }
        if let Some(threads) = learned.threads {
            let mut epoll_threads = threads;
            self.epoll_thread = Some(epoll_threads.remove(0));
        }
        step
    }

    /// What the device's thread is started with.
    pub fn spawn_request(&self) -> (request: SpawnRequest<'_>)
        ensures
            request.id@ == self.id@,
            *request.seccomp_action == self.seccomp_action,
            request.thread == Thread::VirtioVhostGpu,
            *request.exit_evt == self.exit_evt,
            request.paused_sync == self.common.paused_sync,
    {
        SpawnRequest {
            id: self.id.as_str(),
            seccomp_action: &self.seccomp_action,
            thread: Thread::VirtioVhostGpu,
            exit_evt: &self.exit_evt,
            paused_sync: self.common.paused_sync,
        }
    }

    /// The last part of a reset: a thread that can still be told to end is told so.
    pub open spec fn spec_reset_tail<E>(self) -> ResetStep<E> {
        match self.common.kill_evt {
            Some(kill_evt) => ResetStep::Kill(kill_evt, 1),
            None => ResetStep::Announce(DeviceEvent::Reset),
        }
    }

    /// The step that follows `event` when the device is reset: a device that can be paused is
    /// resumed first, then a backend that is connected is reset, the thread ends, and the reset is
    /// announced.
    pub open spec fn spec_reset_step<E>(self, event: ResetEvent<E>) -> ResetStep<E> {
        match event {
            ResetEvent::Start if self.common.pause_evt is Some => ResetStep::ResumeCommon,
            ResetEvent::Start | ResetEvent::CommonResumed => if self.vu_common.vu is Some {
                ResetStep::ResetBackend
            } else {
                self.spec_reset_tail()
            },
            ResetEvent::BackendReset(Ok(_)) => self.spec_reset_tail(),
            ResetEvent::BackendReset(Err(e)) => ResetStep::Return(Err(e)),
            ResetEvent::Killed => ResetStep::Announce(DeviceEvent::Reset),
            ResetEvent::Announced => ResetStep::Return(Ok(())),
        }
    }

    /// The device after `event`: it gives up its pause event at the start, and its kill event with
    /// the step that writes to it.
    pub open spec fn spec_reset_state<E>(self, event: ResetEvent<E>) -> Self {
        Gpu {
            common: VirtioCommon {
                pause_evt: if event is Start {
                    None
                } else {
                    self.common.pause_evt
                },
                kill_evt: if self.spec_reset_step(event) is Kill {
                    None
                } else {
                    self.common.kill_evt
                },
                ..self.common
            },
            ..self
        }
    }

    /// The step that follows `event` when the device is reset.
    pub fn reset<E>(&mut self, event: ResetEvent<E>) -> (step: ResetStep<E>)
        ensures
            step == old(self).spec_reset_step(event),
            *final(self) == old(self).spec_reset_state(event),
            match event {
                ResetEvent::Start => if old(self).common.pause_evt is Some {
                    step is ResumeCommon
                } else if old(self).vu_common.vu is Some {
                    step is ResetBackend
                } else {
                    step == match old(self).common.kill_evt {
                        Some(kill_evt) => ResetStep::<E>::Kill(kill_evt, 1),
                        None => ResetStep::Announce(DeviceEvent::Reset),
                    }
                },
                ResetEvent::CommonResumed => if old(self).vu_common.vu is Some {
                    step is ResetBackend
                } else {
                    step == match old(self).common.kill_evt {
                        Some(kill_evt) => ResetStep::<E>::Kill(kill_evt, 1),
                        None => ResetStep::Announce(DeviceEvent::Reset),
                    }
                },
                ResetEvent::BackendReset(Ok(_)) => step == match old(self).common.kill_evt {
                    Some(kill_evt) => ResetStep::<E>::Kill(kill_evt, 1),
                    None => ResetStep::Announce(DeviceEvent::Reset),
                },
                ResetEvent::BackendReset(Err(e)) => step == ResetStep::Return(Err(e)),
                ResetEvent::Killed => step == ResetStep::<E>::Announce(DeviceEvent::Reset),
                ResetEvent::Announced => step == ResetStep::<E>::Return(Ok(())),
            },
            *final(self) == (Gpu {
                common: VirtioCommon {
                    pause_evt: if event is Start {
                        None
                    } else {
                        old(self).common.pause_evt
                    },
                    kill_evt: if step is Kill {
                        None
                    } else {
                        old(self).common.kill_evt
                    },
                    ..old(self).common
                },
                ..*old(self)
            }),
    {
        match event {
            ResetEvent::Start => {
                if self.common.pause_evt.take().is_some() {
                    return ResetStep::ResumeCommon;
                }
            },
            ResetEvent::CommonResumed => {},
            ResetEvent::BackendReset(result) => {
                return match result {
                    Ok(_) => self.reset_tail(),
                    Err(e) => ResetStep::Return(Err(e)),
                };
            },
            ResetEvent::Killed => return ResetStep::Announce(DeviceEvent::Reset),
            ResetEvent::Announced => return ResetStep::Return(Ok(())),
        }
        if self.vu_common.vu.is_some() {
            ResetStep::ResetBackend
        } else {
            self.reset_tail()
        }
    }

    fn reset_tail<E>(&mut self) -> (step: ResetStep<E>)
        ensures
            step == old(self).spec_reset_tail::<E>(),
            *final(self) == old(self).without_kill_evt(),
    {
        match self.take_kill_evt() {
            Some((kill_evt, value)) => ResetStep::Kill(kill_evt, value),
            None => ResetStep::Announce(DeviceEvent::Reset),
        }
    }

    /// The event that tells the device's thread to end, with the number to write to it. The device
    /// gives it up, so that it is written to once.
    pub fn take_kill_evt(&mut self) -> (kill: Option<(EventFd, u64)>)
        ensures
            kill == match old(self).common.kill_evt {
                Some(kill_evt) => Some((kill_evt, 1u64)),
                None => None,
            },
            *final(self) == old(self).without_kill_evt(),
            *final(self) == (Gpu {
                common: VirtioCommon { kill_evt: None, ..old(self).common },
                ..*old(self)
            }),
    {
        match self.common.kill_evt.take() {
            Some(kill_evt) => Some((kill_evt, 1)),
            None => None,
        }
    }

    /// What the monitor's observers are told of `event`.
    pub fn announcement(&self, event: DeviceEvent) -> (told: Announcement<'_>)
        ensures
            told.source@ == "virtio-device"@,
            told.event@ == event.spec_name(),
            event == DeviceEvent::Activated ==> told.event@ == "activated"@,
            event == DeviceEvent::Reset ==> told.event@ == "reset"@,
            told.id@ == self.id@,
    {
        announcement(event, self.id.as_str())
    }

    /// The step that follows `event` when the device is paused.
    pub fn pause<E>(&self, event: PauseEvent<E>) -> (step: PauseStep<E>)
        ensures
            step == spec_pause(event),
            match event {
                PauseEvent::Start => step is PauseBackend,
                PauseEvent::BackendPaused(Ok(_)) => step is PauseCommon,
                PauseEvent::BackendPaused(Err(e)) => step == PauseStep::Return(Err(e)),
                PauseEvent::CommonPaused(result) => step == PauseStep::Return(result),
            },
    {
        pause_step(event)
    }

    /// The step that follows `event` when the device is resumed.
    pub fn resume<E>(&self, event: ResumeEvent<E>) -> (step: ResumeStep<E>)
        ensures
            step == spec_resume(self.epoll_thread is Some, event),
            match event {
                ResumeEvent::Start => step is ResumeCommon,
                ResumeEvent::CommonResumed(Ok(_)) => if self.epoll_thread is Some {
                    step is Unpark
                } else {
                    step is ResumeBackend
                },
                ResumeEvent::CommonResumed(Err(e)) => step == ResumeStep::Return(Err(e)),
                ResumeEvent::Unparked => step is ResumeBackend,
                ResumeEvent::BackendResumed(result) => step == ResumeStep::Return(result),
            },
    {
        resume_step(self.epoll_thread.is_some(), event)
    }
}

/// The device at the end of an activation, followed from `event` on for at most `fuel` steps.
pub open spec fn activate_end<V, M, T, R, A, H>(
    gpu: Gpu<V, M, T>,
    event: ActivateEvent<M, R, T, A, H>,
    replies: ActivateReplies<M, R, T, A, H>,
    fuel: nat,
) -> Gpu<V, M, T>
    decreases fuel,
{
    let step = gpu.context().spec_step(event);
    let after = gpu.spec_activate_state(event);
    if fuel == 0 {
        gpu
    } else if step is Return {
        after
    } else {
        activate_end(after, replies.answer(step), replies, (fuel - 1) as nat)
    }
}

/// However an activation ends, the device knows the guest's memory if its own part could be
/// activated, it has a new thread exactly on success, and nothing else of it has changed.
pub proof fn law_activated_gpu<V, M, T, R, A, H>(
    gpu: Gpu<V, M, T>,
    replies: ActivateReplies<M, R, T, A, H>,
    fuel: nat,
)
    requires
        fuel >= 6,
    ensures
        activate_end(gpu, ActivateEvent::Start, replies, fuel) == (Gpu {
            guest_memory: match replies.common {
                Ok(mem) => Some(mem),
                Err(_) => gpu.guest_memory,
            },
            epoll_thread: if gpu.context().result(replies) is Ok {
                Some(replies.threads->Ok_0@[0])
            } else {
                gpu.epoll_thread
            },
            ..gpu
        }),
{
    reveal_with_fuel(activate_end, 6);
}

/// What a gpu device is activated with comes from the device itself. The backend gets the features
/// that are acknowledged, no matter which are on offer. The channel for its requests is made where
/// the backend may send requests and there is memory to share, it is about that memory, and it
/// acknowledges where the backend took `REPLY_ACK`, no matter what the guest acknowledged.
pub proof fn law_gpu_activation_step<V, M, T, R, A, H>(
    gpu: Gpu<V, M, T>,
    event: ActivateEvent<M, R, T, A, H>,
)
    ensures
        ({
            let step = gpu.context().spec_step(event);
            &&& match event {
                ActivateEvent::Start => step is ActivateCommon,
                ActivateEvent::CommonActivated(Ok(_)) => if gpu.backend_req_support
                    && gpu.cache is Some {
                    step is CreateReqHandler
                } else {
                    step matches ActivateStep::ActivateBackend(activation)
                        && activation.req_handler is None
                },
                ActivateEvent::CommonActivated(Err(e)) => step == ActivateStep::<R, A, H>::Return(
                    Err(ActivateError::Device(e)),
                ),
                ActivateEvent::ReqHandlerCreated(Ok(channel)) => {
                    step matches ActivateStep::ActivateBackend(activation)
                        && activation.req_handler == Some(channel)
                },
                ActivateEvent::ReqHandlerCreated(Err(e)) => step == ActivateStep::<R, A, H>::Return(
                    Err(ActivateError::VhostUserGpuSetup(Error::FrontendReqHandlerCreation(e))),
                ),
                ActivateEvent::BackendActivated(Ok(_)) => step is SpawnThread,
                ActivateEvent::BackendActivated(Err(e)) => step == ActivateStep::<R, A, H>::Return(
                    Err(ActivateError::Device(e)),
                ),
                ActivateEvent::ThreadSpawned(Ok(_)) => step == ActivateStep::<R, A, H>::Announce(
                    DeviceEvent::Activated,
                ),
                ActivateEvent::ThreadSpawned(Err(e)) => step == ActivateStep::<R, A, H>::Return(
                    Err(ActivateError::Device(e)),
                ),
                ActivateEvent::Announced => step == ActivateStep::<R, A, H>::Return(Ok(())),
            }
            &&& step matches ActivateStep::CreateReqHandler(plan) ==> {
                &&& plan.handler.mapping == gpu.cache->0.mapping
                &&& plan.reply_ack == (gpu.vu_common.acked_protocol_features & 0x8 != 0)
            }
            &&& step matches ActivateStep::ActivateBackend(activation) ==> activation.acked_features
                == gpu.common.acked_features
        }),
{
    let bits = gpu.vu_common.acked_protocol_features;
    law_requests_go_by_their_own_bits(bits, bits);
    assert(bits & 0x8 != 0 <==> bits & 0x8 == 0x8) by (bit_vector);
}

/// Two gpu devices that agree on the backend's requests, on the shared memory, on the protocol
/// features and on the acknowledged features are activated in the same way, however else they
/// differ.
pub proof fn law_gpu_activation_looks_at_nothing_else<V, M, T, R, A, H>(
    gpu: Gpu<V, M, T>,
    other: Gpu<V, M, T>,
    event: ActivateEvent<M, R, T, A, H>,
)
    requires
        gpu.backend_req_support == other.backend_req_support,
        gpu.cache == other.cache,
        gpu.vu_common.acked_protocol_features == other.vu_common.acked_protocol_features,
        gpu.common.acked_features == other.common.acked_features,
    ensures
        gpu.context().spec_step(event) == other.context().spec_step(event),
{
}

/// Each step of a reset goes by what the device still has: an event to pause by, a connection, an
/// event to end its thread by. The thread is ended by writing 1.
pub proof fn law_reset_step<V, M, T, E>(gpu: Gpu<V, M, T>, event: ResetEvent<E>)
    ensures
        ({
            let step = gpu.spec_reset_step(event);
            let after = gpu.spec_reset_state(event);
            &&& match event {
                ResetEvent::Start => if gpu.common.pause_evt is Some {
                    step is ResumeCommon
                } else if gpu.vu_common.vu is Some {
                    step is ResetBackend
                } else {
                    step == match gpu.common.kill_evt {
                        Some(kill_evt) => ResetStep::<E>::Kill(kill_evt, 1),
                        None => ResetStep::Announce(DeviceEvent::Reset),
                    }
                },
                ResetEvent::CommonResumed => if gpu.vu_common.vu is Some {
                    step is ResetBackend
                } else {
                    step == match gpu.common.kill_evt {
                        Some(kill_evt) => ResetStep::<E>::Kill(kill_evt, 1),
                        None => ResetStep::Announce(DeviceEvent::Reset),
                    }
                },
                ResetEvent::BackendReset(Ok(_)) => step == match gpu.common.kill_evt {
                    Some(kill_evt) => ResetStep::<E>::Kill(kill_evt, 1),
                    None => ResetStep::Announce(DeviceEvent::Reset),
                },
                ResetEvent::BackendReset(Err(e)) => step == ResetStep::Return(Err(e)),
                ResetEvent::Killed => step == ResetStep::<E>::Announce(DeviceEvent::Reset),
                ResetEvent::Announced => step == ResetStep::<E>::Return(Ok(())),
            }
            &&& after.common.pause_evt == if event is Start {
                None
            } else {
                gpu.common.pause_evt
            }
            &&& after.common.kill_evt == if step is Kill {
                None
            } else {
                gpu.common.kill_evt
            }
        }),
{
}

/// All the steps of a reset from `event` on, where the backend answers `backend`, and the device
/// at its end. At most `fuel` steps are followed.
pub open spec fn reset_run<V, M, T, E>(
    gpu: Gpu<V, M, T>,
    event: ResetEvent<E>,
    backend: Result<(), E>,
    fuel: nat,
) -> (Seq<ResetStep<E>>, Gpu<V, M, T>)
    decreases fuel,
{
    let step = gpu.spec_reset_step(event);
    let after = gpu.spec_reset_state(event);
    if fuel == 0 {
        (Seq::empty(), gpu)
    } else if step is Return {
        (seq![step], after)
    } else {
        let next = match step {
            ResetStep::ResumeCommon => ResetEvent::CommonResumed,
            ResetStep::ResetBackend => ResetEvent::BackendReset(backend),
            ResetStep::Kill(_, _) => ResetEvent::Killed,
            _ => ResetEvent::Announced,
        };
        let (steps, end) = reset_run(after, next, backend, (fuel - 1) as nat);
        (seq![step] + steps, end)
    }
}

/// A reset resumes a device that can be paused, resets a backend that is connected, ends the thread
/// and is announced, in this order. A backend that cannot be reset ends the reset with its error:
/// the thread stays as it was and nothing is announced. Afterwards the device has no pause event
/// and, unless the backend failed, no kill event; nothing else of it has changed.
pub proof fn law_reset<V, M, T, E>(gpu: Gpu<V, M, T>, backend: Result<(), E>, fuel: nat)
    requires
        fuel >= 5,
    ensures
        ({
            let (steps, end) = reset_run(gpu, ResetEvent::Start, backend, fuel);
            let failed = gpu.vu_common.vu is Some && backend is Err;
            let resume = if gpu.common.pause_evt is Some {
                seq![ResetStep::<E>::ResumeCommon]
            } else {
                Seq::empty()
            };
            let reset = if gpu.vu_common.vu is Some {
                seq![ResetStep::<E>::ResetBackend]
            } else {
                Seq::empty()
            };
            let kill = match gpu.common.kill_evt {
                Some(kill_evt) if !failed => seq![ResetStep::<E>::Kill(kill_evt, 1)],
                _ => Seq::empty(),
            };
            let announce = if failed {
                Seq::empty()
            } else {
                seq![ResetStep::<E>::Announce(DeviceEvent::Reset)]
            };
            let result = if failed {
                backend
            } else {
                Ok(())
            };
            &&& steps == resume + reset + kill + announce + seq![ResetStep::Return(result)]
            &&& end == Gpu {
                common: VirtioCommon {
                    pause_evt: None,
                    kill_evt: if failed {
                        gpu.common.kill_evt
                    } else {
                        None
                    },
                    ..gpu.common
                },
                ..gpu
            }
        }),
{
    reveal_with_fuel(reset_run, 5);
}

/// What holds of a gpu device from its creation on is kept by everything that changes the device.
pub proof fn law_gpu_stays_well_formed<V, M, T, R, A, H, E>(
    gpu: Gpu<V, M, T>,
    activation: ActivateEvent<M, R, T, A, H>,
    reset: ResetEvent<E>,
    cache: VirtioSharedMemoryList,
)
    requires
        gpu.wf(),
    ensures
        gpu.spec_activate_state(activation).wf(),
        gpu.spec_reset_state(reset).wf(),
        gpu.without_kill_evt().wf(),
        gpu.with_cache(cache).wf(),
{
}

/// The shared memory that was given last is the one that counts: for the guest, and for the
/// backend's requests.
pub proof fn law_gpu_last_shared_memory_counts<V, M, T>(
    gpu: Gpu<V, M, T>,
    first: VirtioSharedMemoryList,
    last: VirtioSharedMemoryList,
)
    ensures
        ({
            let after = gpu.with_cache(first).with_cache(last);
            &&& after == gpu.with_cache(last)
            &&& after == Gpu { cache: Some(last), ..gpu }
            &&& after.cache == Some(last)
            &&& after.spec_userspace_mappings().len() == 1
            &&& after.spec_userspace_mappings()[0].mapping == last.mapping
            &&& after.spec_userspace_mappings()[0].mem_slot == last.mem_slot
            &&& after.spec_userspace_mappings()[0].addr == last.addr
            &&& !after.spec_userspace_mappings()[0].mergeable
            &&& after.context().plan matches Some(plan) ==> plan.handler.mapping == last.mapping
            &&& after.context().plan is Some <==> gpu.backend_req_support
        }),
{
}

/// A gpu device lists the memory that it shares, as one mapping whose pages are not merged with
/// others, and nothing where it shares none.
pub proof fn law_gpu_lists_what_it_shares<V, M, T>(gpu: Gpu<V, M, T>)
    ensures
        gpu.cache is None <==> gpu.spec_userspace_mappings().len() == 0,
        gpu.cache is Some ==> {
            &&& gpu.spec_userspace_mappings().len() == 1
            &&& gpu.spec_userspace_mappings()[0].mem_slot == gpu.cache->0.mem_slot
            &&& gpu.spec_userspace_mappings()[0].addr == gpu.cache->0.addr
            &&& gpu.spec_userspace_mappings()[0].mapping == gpu.cache->0.mapping
            &&& !gpu.spec_userspace_mappings()[0].mergeable
        },
{
}

/// A new gpu device has all that its setup began with and all that its backend took. It has two
/// queues, it is inactive, and the backend may send requests exactly where it took `BACKEND_REQ`.
pub proof fn law_new_gpu<V, M, T>(gpu: Gpu<V, M, T>, from: Negotiated<V>)
    requires
        gpu.created_from(from),
    ensures
        gpu.common.device_type == 16,
        gpu.common.avail_features == from.acked_features,
        gpu.common.acked_features == from.acked_features & 0x4000_0000,
        gpu.common.queue_sizes@ == seq![256u16, 16u16],
        gpu.common.min_queues == gpu.common.queue_sizes@.len(),
        gpu.common.paused_sync == Some(2usize),
        gpu.common.pause_evt is None,
        gpu.common.kill_evt is None,
        gpu.vu_common.vu == Some(from.vu),
        gpu.vu_common.acked_protocol_features == from.acked_protocol_features,
        gpu.vu_common.socket_path == from.setup.path,
        gpu.vu_common.vu_num_queues == gpu.common.queue_sizes@.len(),
        gpu.vu_common.vring_bases is None,
        gpu.id == from.setup.id,
        gpu.cache is None,
        gpu.seccomp_action == from.setup.seccomp_action,
        gpu.guest_memory is None,
        gpu.epoll_thread is None,
        gpu.exit_evt == from.setup.exit_evt,
        gpu.iommu == from.setup.access_platform,
        gpu.backend_req_support <==> from.acked_protocol_features & 0x20 == 0x20,
{
    law_requests_go_by_their_own_bits(from.acked_protocol_features, from.acked_protocol_features);
}

/// A new gpu device offers the guest what its backend took, and `ACCESS_PLATFORM` where it sits
/// behind an IOMMU. Of all that only `PROTOCOL_FEATURES` counts as acknowledged, if the backend
/// took it.
pub proof fn law_new_gpu_features<V, M, T>(gpu: Gpu<V, M, T>, from: Negotiated<V>, i: u64)
    requires
        gpu.created_from(from),
        i < 64,
    ensures
        has_bit(spec_guest_features(gpu.common.avail_features, gpu.iommu), i) <==> has_bit(
            from.acked_features,
            i,
        ) || (from.setup.access_platform && i == 33),
        has_bit(gpu.common.acked_features, i) <==> i == 30 && has_bit(from.acked_features, 30),
{
    law_guest_features(gpu.common.avail_features, gpu.iommu, i);
    law_preacked_features(from.acked_features, i);
}

} // verus!
