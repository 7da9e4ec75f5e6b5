//! The virtio-media device.

use crate::activate::req_handler_plan;
use crate::activate::spec_req_handler_plan;
use crate::activate::ActivateContext;
use crate::activate::ActivateError;
use crate::activate::ActivateEvent;
use crate::activate::ActivateReplies;
use crate::activate::ActivateStep;
use crate::activate::SpawnRequest;
use crate::activate::Thread;
use crate::config::config_request;
use crate::config::overwritten;
use crate::config::spec_config_request;
use crate::config::store_config;
use crate::config::ConfigError;
use crate::config::ConfigRequest;
use crate::device::announcement;
use crate::device::Announcement;
use crate::device::DeviceEvent;
use crate::device::Error;
use crate::device::SetShmRegionsNotSupported;
use crate::device::UserspaceMapping;
use crate::device::VhostSharedMemoryRegion;
use crate::device::VhostUserCommon;
use crate::device::VirtioCommon;
use crate::device::VirtioSharedMemoryList;
use crate::device::NUM_QUEUES;
use crate::features::backend_req_negotiated;
use crate::features::guest_features;
use crate::features::has_bit;
use crate::features::law_guest_features;
use crate::features::law_preacked_features;
use crate::features::law_requests_go_by_their_own_bits;
use crate::features::preacked_features;
use crate::features::spec_backend_req_negotiated;
use crate::features::spec_guest_features;
use crate::features::spec_preacked_features;
use crate::lifecycle::pause_step;
use crate::lifecycle::resume_step;
use crate::lifecycle::spec_pause;
use crate::lifecycle::spec_resume;
use crate::lifecycle::PauseEvent;
use crate::lifecycle::PauseStep;
use crate::lifecycle::ResumeEvent;
use crate::lifecycle::ResumeStep;
use crate::setup::Negotiated;
use seccompiler::SeccompAction;
use vmm_sys_util::eventfd::EventFd;
use vstd::prelude::*;

verus! {

/// The kind of a media device.
pub const VIRTIO_ID_MEDIA: u32 = 48;

/// How many bytes of memory a media device shares with the guest.
pub const SHM_LENGTH: u64 = 0x1000_0000;

/// A media device. `V` is the connection to its backend, `M` the guest's memory and `T` a thread.
pub struct Media<V, M, T> {
    pub common: VirtioCommon,
    pub vu_common: VhostUserCommon<V>,
    pub id: String,
    /// The memory that the device shares with the guest.
    pub cache: Option<VirtioSharedMemoryList>,
    pub seccomp_action: SeccompAction,
    pub guest_memory: Option<M>,
    /// Handles reconnections of the backend.
    pub epoll_thread: Option<T>,
    pub exit_evt: EventFd,
    /// Whether the device sits behind an IOMMU.
    pub access_platform_enabled: bool,
}

impl<V, M, T> Media<V, M, T> {
    /// What holds of a new media device, and what the library's functions keep.
    pub open spec fn wf(self) -> bool {
        &&& self.common.device_type == VIRTIO_ID_MEDIA
        &&& self.common.queue_sizes@ == seq![256u16, 256u16]
        &&& self.common.min_queues == 2
        &&& self.common.paused_sync == Some(2usize)
        &&& self.vu_common.vu_num_queues == 2
    }

    /// The device as it comes out of its setup: inactive, not shared with the guest and with
    /// everything else as `from` has it.
    pub open spec fn created_from(self, from: Negotiated<V>) -> bool {
        &&& self.wf()
        &&& self.common.avail_features == from.acked_features
        &&& self.common.acked_features == spec_preacked_features(from.acked_features)
        &&& self.common.pause_evt is None
        &&& self.common.kill_evt is None
        &&& self.vu_common.vu == Some(from.vu)
        &&& self.vu_common.acked_protocol_features == from.acked_protocol_features
        &&& self.vu_common.socket_path == from.setup.path
        &&& self.vu_common.vring_bases is None
        &&& self.id == from.setup.id
        &&& self.cache is None
        &&& self.seccomp_action == from.setup.seccomp_action
        &&& self.guest_memory is None
        &&& self.epoll_thread is None
        &&& self.exit_evt == from.setup.exit_evt
        &&& self.access_platform_enabled == from.setup.access_platform
    }

    /// The device with this memory to share.
    pub open spec fn with_cache(self, cache: VirtioSharedMemoryList) -> Self {
        Media { cache: Some(cache), ..self }
    }

    /// What of the device decides about its activation.
    pub open spec fn context(self) -> ActivateContext {
        ActivateContext {
            plan: spec_req_handler_plan(
                spec_backend_req_negotiated(self.vu_common.acked_protocol_features),
                self.cache,
                self.vu_common.acked_protocol_features,
            ),
            acked_features: self.common.acked_features,
            thread: Thread::VirtioVhostMedia,
        }
    }

    /// For each queue the index from which the backend starts, where it is not to be read from the
    /// guest's memory.
    pub open spec fn vring_bases(self) -> Option<Seq<u64>> {
        match self.vu_common.vring_bases {
            Some(bases) => Some(bases@),
            None => None,
        }
    }

    /// Makes the device. Its one shared memory region does not depend on the backend, and is
    /// handed out with the device.
    pub fn new(from: Negotiated<V>) -> (media: (Media<V, M, T>, VhostSharedMemoryRegion))
        ensures
            media.0.created_from(from),
            media.0.common.device_type == 48,
            media.0.common.avail_features == from.acked_features,
            media.0.common.acked_features == from.acked_features & 0x4000_0000,
            media.0.common.queue_sizes@ == seq![256u16, 256u16],
            media.0.common.min_queues == 2,
            media.0.common.paused_sync == Some(2usize),
            media.0.common.pause_evt is None,
            media.0.common.kill_evt is None,
            media.0.vu_common.vu == Some(from.vu),
            media.0.vu_common.acked_protocol_features == from.acked_protocol_features,
            media.0.vu_common.socket_path == from.setup.path,
            media.0.vu_common.vu_num_queues == 2,
            media.0.vu_common.vring_bases is None,
            media.0.id == from.setup.id,
            media.0.cache is None,
            media.0.seccomp_action == from.setup.seccomp_action,
            media.0.guest_memory is None,
            media.0.epoll_thread is None,
            media.0.exit_evt == from.setup.exit_evt,
            media.0.access_platform_enabled == from.setup.access_platform,
            media.1.id == 0,
            media.1.padding@ == Seq::new(7, |i: int| 0u8),
            media.1.length == SHM_LENGTH,
            media.1.length == 256 * 1024 * 1024,
    {
        let shm_region = VhostSharedMemoryRegion { id: 0, padding: [0; 7], length: SHM_LENGTH };
        let queue_sizes: Vec<u16> = vec![256, 256];
        let media = Media {
            common: VirtioCommon {
                device_type: VIRTIO_ID_MEDIA,
                avail_features: from.acked_features,
                acked_features: preacked_features(from.acked_features),
                queue_sizes,
                min_queues: NUM_QUEUES,
                paused_sync: Some(NUM_QUEUES as usize),
                pause_evt: None,
                kill_evt: None,
            },
            vu_common: VhostUserCommon {
                vu: Some(from.vu),
                acked_protocol_features: from.acked_protocol_features,
                socket_path: from.setup.path,
                vu_num_queues: NUM_QUEUES as usize,
                vring_bases: None,
            },
            id: from.setup.id,
            cache: None,
            seccomp_action: from.setup.seccomp_action,
            guest_memory: None,
            epoll_thread: None,
            exit_evt: from.setup.exit_evt,
            access_platform_enabled: from.setup.access_platform,
        };
        (media, shm_region)
    }

    /// Gives the device the memory that it shares with the guest.
    pub fn set_cache(&mut self, cache: VirtioSharedMemoryList)
        ensures
            *final(self) == old(self).with_cache(cache),
            *final(self) == (Media { cache: Some(cache), ..*old(self) }),
    {
        self.cache = Some(cache);
    }

    /// The kind of the device.
    pub fn device_type(&self) -> (device_type: u32)
        ensures
            device_type == self.common.device_type,
    {
        self.common.device_type
    }

    /// The largest size of each queue.
    pub fn queue_max_sizes(&self) -> (sizes: &[u16])
        ensures
            sizes@ == self.common.queue_sizes@,
    {
        self.common.queue_sizes.as_slice()
    }

    /// The features that the guest is offered.
    pub fn features(&self) -> (features: u64)
        ensures
            features == spec_guest_features(
                self.common.avail_features,
                self.access_platform_enabled,
            ),
            self.access_platform_enabled ==> features == self.common.avail_features
                | 0x2_0000_0000,
            !self.access_platform_enabled ==> features == self.common.avail_features,
    {
        guest_features(self.common.avail_features, self.access_platform_enabled)
    }

    /// What to ask the backend for when the guest reads configuration space from `offset` on into
    /// `data`. Without a connection there is nobody to ask.
    pub fn read_config_request<'a>(&self, offset: u64, data: &'a [u8]) -> (request: Option<
        ConfigRequest<'a>,
    >)
        ensures
            request == if self.vu_common.vu is Some {
                Some(spec_config_request(offset, data))
            } else {
                None
            },
            request is Some <==> self.vu_common.vu is Some,
            request matches Some(request) ==> {
                &&& request.offset == offset % 0x1_0000_0000
                &&& request.size == data@.len() % 0x1_0000_0000
                &&& request.flags == 1
                &&& request.payload@ == data@
            },
    {
        if self.vu_common.vu.is_some() {
            Some(config_request(offset, data))
        } else {
            None
        }
    }

    /// Puts the backend's answer into the guest's buffer.
    pub fn read_config<E>(&self, data: &mut [u8], reply: Result<Vec<u8>, E>) -> (result: Result<
        (),
        ConfigError<E>,
    >)
        ensures
            match reply {
                Ok(config) => {
                    &&& final(data)@ == overwritten(old(data)@, config@)
                    &&& final(data)@.len() == old(data)@.len()
                    &&& forall|i: int|
                        0 <= i < old(data)@.len() ==> #[trigger] final(data)@[i] == if i
                            < config@.len() {
                            config@[i]
                        } else {
                            old(data)@[i]
                        }
                    &&& result == if config@.len() <= old(data)@.len() {
                        Ok::<(), ConfigError<E>>(())
                    } else {
                        Err(ConfigError::WriteZero)
                    }
                },
                Err(e) => {
                    &&& final(data)@ == old(data)@
                    &&& result == Err::<(), ConfigError<E>>(ConfigError::Backend(e))
                },
            },
    {
        store_config(data, reply)
    }

    /// The memory that the device shares with the guest.
    pub fn get_shm_regions(&self) -> (regions: Option<VirtioSharedMemoryList>)
        ensures
            regions == self.cache,
    {
        self.cache
    }

    /// Replaces the memory that the device shares with the guest. A device that shares none is
    /// left as it is.
    pub fn set_shm_regions(&mut self, shm_regions: VirtioSharedMemoryList) -> (result: Result<
        (),
        SetShmRegionsNotSupported,
    >)
        ensures
            old(self).cache is Some ==> {
                &&& result is Ok
                &&& *final(self) == old(self).with_cache(shm_regions)
                &&& *final(self) == Media { cache: Some(shm_regions), ..*old(self) }
            },
            old(self).cache is None ==> {
                &&& result is Err
                &&& *final(self) == *old(self)
            },
    {
        if self.cache.is_some() {
            self.cache = Some(shm_regions);
            Ok(())
        } else {
            Err(SetShmRegionsNotSupported)
        }
    }

    /// The memory of the monitor that is to be visible in the guest: none. What the device shares
    /// reaches the guest by another way, and it must not be sent to the backend: it has no file
    /// behind it, and the backend cannot make sense of such memory.
    pub fn userspace_mappings(&self) -> (mappings: Vec<UserspaceMapping>)
        ensures
            mappings@ == Seq::<UserspaceMapping>::empty(),
    {
        Vec::new()
    }

    /// The device after `event`, with these indices for the queues: it learns the guest's memory
    /// once its own part is active, and its thread once that runs.
    pub open spec fn spec_activate_state<R, A, H>(
        self,
        event: ActivateEvent<M, R, T, A, H>,
        vring_bases: Option<Vec<u64>>,
    ) -> Self {
        Media {
            vu_common: VhostUserCommon { vring_bases, ..self.vu_common },
            guest_memory: match event.learned().mem {
                Some(mem) => Some(mem),
                None => self.guest_memory,
            },
            epoll_thread: match event.learned().threads {
                Some(threads) => Some(threads@[0]),
                None => self.epoll_thread,
            },
            ..self
        }
    }

    /// Whether the device becomes `after` when `event` is met in an activation with `num_queues`
    /// queues. A device that is about to activate its backend and has no indices for the queues
    /// takes 0 for each of them.
    pub open spec fn activates<R, A, H>(
        self,
        event: ActivateEvent<M, R, T, A, H>,
        num_queues: nat,
        after: Self,
    ) -> bool {
        &&& after.vring_bases() == if self.context().spec_step(event) is ActivateBackend
            && self.vring_bases() is None {
            Some(Seq::new(num_queues, |i: int| 0u64))
        } else {
            self.vring_bases()
        }
        &&& after == self.spec_activate_state(event, after.vu_common.vring_bases)
    }

    /// The step that follows `event` when the device is activated with `num_queues` queues. Where
    /// threads were started, there is at least one.
    ///
    /// The guest's driver puts buffers into a queue before it declares itself ready. The backend
    /// must find them, so it starts every queue at 0 and not where the guest's memory says.
    pub fn activate<R, A, H>(
        &mut self,
        event: ActivateEvent<M, R, T, A, H>,
        num_queues: usize,
    ) -> (step: ActivateStep<R, A, H>)
        requires
            event matches ActivateEvent::ThreadSpawned(Ok(threads)) ==> threads@.len() > 0,
        ensures
            step == old(self).context().spec_step(event),
            old(self).activates(event, num_queues as nat, *final(self)),
            match event {
                ActivateEvent::Start => step is ActivateCommon,
                ActivateEvent::CommonActivated(Ok(_)) => {
                    if old(self).vu_common.acked_protocol_features & 0x20 != 0
                        && old(self).cache is Some {
                        step is CreateReqHandler
                    } else {
                        step matches ActivateStep::ActivateBackend(activation)
                            && activation.req_handler is None
                    }
                },
                ActivateEvent::CommonActivated(Err(e)) => step == ActivateStep::<R, A, H>::Return(
                    Err(ActivateError::Device(e)),
                ),
                ActivateEvent::ReqHandlerCreated(Ok(channel)) => {
                    step matches ActivateStep::ActivateBackend(activation)
                        && activation.req_handler == Some(channel)
                },
                ActivateEvent::ReqHandlerCreated(Err(e)) => step == ActivateStep::<R, A, H>::Return(
                    Err(ActivateError::VhostUserSetup(Error::FrontendReqHandlerCreation(e))),
                ),
                ActivateEvent::BackendActivated(Ok(_)) => step is SpawnThread,
                ActivateEvent::BackendActivated(Err(e)) => step == ActivateStep::<R, A, H>::Return(
                    Err(ActivateError::Device(e)),
                ),
                ActivateEvent::ThreadSpawned(Ok(_)) => step == ActivateStep::<R, A, H>::Announce(
                    DeviceEvent::Activated,
                ),
                ActivateEvent::ThreadSpawned(Err(e)) => step == ActivateStep::<R, A, H>::Return(
                    Err(ActivateError::Device(e)),
                ),
                ActivateEvent::Announced => step == ActivateStep::<R, A, H>::Return(Ok(())),
            },
            step matches ActivateStep::CreateReqHandler(plan) ==> {
                &&& plan.handler.mapping == old(self).cache->0.mapping
                &&& plan.reply_ack == (old(self).vu_common.acked_protocol_features & 0x8 != 0)
            },
            step matches ActivateStep::ActivateBackend(activation) ==> activation.acked_features
                == old(self).common.acked_features,
            old(self).vu_common.vring_bases is Some || !(step is ActivateBackend)
                ==> final(self).vu_common.vring_bases == old(self).vu_common.vring_bases,
            old(self).vu_common.vring_bases is None && step is ActivateBackend ==> {
                &&& final(self).vu_common.vring_bases matches Some(bases)
                &&& bases@.len() == num_queues
                &&& forall|i: int| 0 <= i < num_queues ==> #[trigger] bases@[i] == 0
            },
            *final(self) == (Media {
                vu_common: VhostUserCommon {
                    vring_bases: final(self).vu_common.vring_bases,
                    ..old(self).vu_common
                },
                guest_memory: match event {
                    ActivateEvent::CommonActivated(Ok(mem)) => Some(mem),
                    _ => old(self).guest_memory,
                },
                epoll_thread: match event {
                    ActivateEvent::ThreadSpawned(Ok(threads)) => Some(threads@[0]),
                    _ => old(self).epoll_thread,
                },
                ..*old(self)
            }),
    {
        let context = ActivateContext {
            plan: req_handler_plan(
                backend_req_negotiated(self.vu_common.acked_protocol_features),
                &self.cache,
                self.vu_common.acked_protocol_features,
            ),
            acked_features: self.common.acked_features,
            thread: Thread::VirtioVhostMedia,
        };
        let (step, learned) = context.step(event);
        if let Some(mem) = learned.mem {
            self.guest_memory = Some(mem);
        }
        if let Some(threads) = learned.threads {
            let mut epoll_threads = threads;
            self.epoll_thread = Some(epoll_threads.remove(0));
        }
        if let ActivateStep::ActivateBackend(_) = &step {
            if self.vu_common.vring_bases.is_none() {
                let bases: Vec<u64> = vec![0; num_queues];
                assert(bases@ =~= Seq::new(num_queues as nat, |i: int| 0u64));
                self.vu_common.vring_bases = Some(bases);
            }
        }
        step
    }

    /// What the device's thread is started with.
    pub fn spawn_request(&self) -> (request: SpawnRequest<'_>)
        ensures
            request.id@ == self.id@,
            *request.seccomp_action == self.seccomp_action,
            request.thread == Thread::VirtioVhostMedia,
            *request.exit_evt == self.exit_evt,
            request.paused_sync == self.common.paused_sync,
    {
        SpawnRequest {
            id: self.id.as_str(),
            seccomp_action: &self.seccomp_action,
            thread: Thread::VirtioVhostMedia,
            exit_evt: &self.exit_evt,
            paused_sync: self.common.paused_sync,
        }
    }

    /// What the monitor's observers are told of `event`.
    pub fn announcement(&self, event: DeviceEvent) -> (told: Announcement<'_>)
        ensures
            told.source@ == "virtio-device"@,
            told.event@ == event.spec_name(),
            event == DeviceEvent::Activated ==> told.event@ == "activated"@,
            event == DeviceEvent::Reset ==> told.event@ == "reset"@,
            told.id@ == self.id@,
    {
        announcement(event, self.id.as_str())
    }

    /// The step that follows `event` when the device is paused.
    pub fn pause<E>(&self, event: PauseEvent<E>) -> (step: PauseStep<E>)
        ensures
            step == spec_pause(event),
            match event {
                PauseEvent::Start => step is PauseBackend,
                PauseEvent::BackendPaused(Ok(_)) => step is PauseCommon,
                PauseEvent::BackendPaused(Err(e)) => step == PauseStep::Return(Err(e)),
                PauseEvent::CommonPaused(result) => step == PauseStep::Return(result),
            },
    {
        pause_step(event)
    }

    /// The step that follows `event` when the device is resumed.
    pub fn resume<E>(&self, event: ResumeEvent<E>) -> (step: ResumeStep<E>)
        ensures
            step == spec_resume(self.epoll_thread is Some, event),
            match event {
                ResumeEvent::Start => step is ResumeCommon,
                ResumeEvent::CommonResumed(Ok(_)) => if self.epoll_thread is Some {
                    step is Unpark
                } else {
                    step is ResumeBackend
                },
                ResumeEvent::CommonResumed(Err(e)) => step == ResumeStep::Return(Err(e)),
                ResumeEvent::Unparked => step is ResumeBackend,
                ResumeEvent::BackendResumed(result) => step == ResumeStep::Return(result),
            },
    {
        resume_step(self.epoll_thread.is_some(), event)
    }
}

/// What a media device is activated with comes from the device itself. The backend gets the
/// features that are acknowledged, no matter which are on offer. The channel for its requests is
/// made where the backend took `BACKEND_REQ` and there is memory to share, it is about that memory,
/// and it acknowledges where the backend took `REPLY_ACK`, no matter what the guest acknowledged.
pub proof fn law_media_activation_step<V, M, T, R, A, H>(
    media: Media<V, M, T>,
    event: ActivateEvent<M, R, T, A, H>,
)
    ensures
        ({
            let step = media.context().spec_step(event);
            &&& match event {
                ActivateEvent::Start => step is ActivateCommon,
                ActivateEvent::CommonActivated(Ok(_)) => if media.vu_common.acked_protocol_features
                    & 0x20 != 0 && media.cache is Some {
                    step is CreateReqHandler
                } else {
                    step matches ActivateStep::ActivateBackend(activation)
                        && activation.req_handler is None
                },
                ActivateEvent::CommonActivated(Err(e)) => step == ActivateStep::<R, A, H>::Return(
                    Err(ActivateError::Device(e)),
                ),
                ActivateEvent::ReqHandlerCreated(Ok(channel)) => {
                    step matches ActivateStep::ActivateBackend(activation)
                        && activation.req_handler == Some(channel)
                },
                ActivateEvent::ReqHandlerCreated(Err(e)) => step == ActivateStep::<R, A, H>::Return(
                    Err(ActivateError::VhostUserSetup(Error::FrontendReqHandlerCreation(e))),
                ),
                ActivateEvent::BackendActivated(Ok(_)) => step is SpawnThread,
                ActivateEvent::BackendActivated(Err(e)) => step == ActivateStep::<R, A, H>::Return(
                    Err(ActivateError::Device(e)),
                ),
                ActivateEvent::ThreadSpawned(Ok(_)) => step == ActivateStep::<R, A, H>::Announce(
                    DeviceEvent::Activated,
                ),
                ActivateEvent::ThreadSpawned(Err(e)) => step == ActivateStep::<R, A, H>::Return(
                    Err(ActivateError::Device(e)),
                ),
                ActivateEvent::Announced => step == ActivateStep::<R, A, H>::Return(Ok(())),
            }
            &&& step matches ActivateStep::CreateReqHandler(plan) ==> {
                &&& plan.handler.mapping == media.cache->0.mapping
                &&& plan.reply_ack == (media.vu_common.acked_protocol_features & 0x8 != 0)
            }
            &&& step matches ActivateStep::ActivateBackend(activation) ==> activation.acked_features
                == media.common.acked_features
        }),
{
    let bits = media.vu_common.acked_protocol_features;
    law_requests_go_by_their_own_bits(bits, bits);
    assert(bits & 0x8 != 0 <==> bits & 0x8 == 0x8) by (bit_vector);
    assert(bits & 0x20 != 0 <==> bits & 0x20 == 0x20) by (bit_vector);
}

/// Two media devices that agree on the shared memory, on the protocol features and on the
/// acknowledged features are activated in the same way, however else they differ.
pub proof fn law_media_activation_looks_at_nothing_else<V, M, T, R, A, H>(
    media: Media<V, M, T>,
    other: Media<V, M, T>,
    event: ActivateEvent<M, R, T, A, H>,
)
    requires
        media.cache == other.cache,
        media.vu_common.acked_protocol_features == other.vu_common.acked_protocol_features,
        media.common.acked_features == other.common.acked_features,
    ensures
        media.context().spec_step(event) == other.context().spec_step(event),
{
}

/// The backend of a media device never starts a queue from what the guest's memory says: when it is
/// activated there is an index for each queue, 0 for all of them unless indices were known before.
/// Known indices are kept, and no other step makes any up.
pub proof fn law_media_queue_indices<V, M, T, R, A, H>(
    media: Media<V, M, T>,
    event: ActivateEvent<M, R, T, A, H>,
    num_queues: nat,
    after: Media<V, M, T>,
)
    requires
        media.activates(event, num_queues, after),
    ensures
        ({
            let before = media.vu_common.vring_bases;
            let bases = after.vu_common.vring_bases;
            let step = media.context().spec_step(event);
            &&& step is ActivateBackend ==> bases is Some
            &&& before matches Some(known) ==> bases is Some && bases->0@ == known@
            &&& before is None && !(step is ActivateBackend) ==> bases is None
            &&& before is None && step is ActivateBackend ==> {
                &&& bases->0@.len() == num_queues
                &&& forall|i: int| 0 <= i < num_queues ==> #[trigger] bases->0@[i] == 0
            }
        }),
{
}

/// Whether an activation with `num_queues` queues that goes on from `event` leaves the device as
/// `end`, in at most `fuel` steps.
pub open spec fn activation_leads_to<V, M, T, R, A, H>(
    media: Media<V, M, T>,
    num_queues: nat,
    event: ActivateEvent<M, R, T, A, H>,
    replies: ActivateReplies<M, R, T, A, H>,
    end: Media<V, M, T>,
    fuel: nat,
) -> bool
    decreases fuel,
{
    let step = media.context().spec_step(event);
    if fuel == 0 {
        false
    } else if step is Return {
        media.activates(event, num_queues, end)
    } else {
        exists|after: Media<V, M, T>| #[trigger]
            media.activates(event, num_queues, after) && activation_leads_to(
                after,
                num_queues,
                replies.answer(step),
                replies,
                end,
                (fuel - 1) as nat,
            )
    }
}

/// How many steps an activation takes at most from `event` on.
spec fn steps_left<M, R, T, A, H>(event: ActivateEvent<M, R, T, A, H>) -> nat {
    match event {
        ActivateEvent::Start => 6,
        ActivateEvent::CommonActivated(_) => 5,
        ActivateEvent::ReqHandlerCreated(_) => 4,
        ActivateEvent::BackendActivated(_) => 3,
        ActivateEvent::ThreadSpawned(_) => 2,
        ActivateEvent::Announced => 1,
    }
}

/// The device at the end of an activation that goes on from `event`. Where the device has no
/// indices for the queues yet, it takes `zeros`.
proof fn lemma_activation_leads_on<V, M, T, R, A, H>(
    media: Media<V, M, T>,
    zeros: Vec<u64>,
    event: ActivateEvent<M, R, T, A, H>,
    replies: ActivateReplies<M, R, T, A, H>,
    fuel: nat,
) -> (end: Media<V, M, T>)
    requires
        zeros@ == Seq::new(zeros@.len(), |i: int| 0u64),
        fuel >= steps_left(event),
    ensures
        activation_leads_to(media, zeros@.len(), event, replies, end, fuel),
    decreases fuel,
{
    let step = media.context().spec_step(event);
    let bases = if step is ActivateBackend && media.vring_bases() is None {
        Some(zeros)
    } else {
        media.vu_common.vring_bases
    };
    let after = media.spec_activate_state(event, bases);
    assert(media.activates(event, zeros@.len(), after));
    if step is Return {
        after
    } else {
        lemma_activation_leads_on(after, zeros, replies.answer(step), replies, (fuel - 1) as nat)
    }
}

/// Whatever the parts of an activation answer, it leads to some end within six steps. `zeros` are
/// the indices that a device takes which has none.
pub proof fn law_media_activation_ends<V, M, T, R, A, H>(
    media: Media<V, M, T>,
    num_queues: nat,
    zeros: Vec<u64>,
    replies: ActivateReplies<M, R, T, A, H>,
    fuel: nat,
)
    requires
        zeros@ == Seq::new(num_queues, |i: int| 0u64),
        fuel >= 6,
    ensures
        exists|end: Media<V, M, T>|
            activation_leads_to(media, num_queues, ActivateEvent::Start, replies, end, fuel),
{
    lemma_activation_leads_on(media, zeros, ActivateEvent::Start, replies, fuel);
}

/// However an activation ends, the device knows the guest's memory if its own part could be
/// activated, and it has a new thread exactly on success. If the activation got as far as the
/// backend, each queue starts at the index that was known before, or at 0 if none was. Nothing else
/// of the device has changed.
pub proof fn law_activated_media<V, M, T, R, A, H>(
    media: Media<V, M, T>,
    num_queues: nat,
    replies: ActivateReplies<M, R, T, A, H>,
    end: Media<V, M, T>,
    fuel: nat,
)
    requires
        activation_leads_to(media, num_queues, ActivateEvent::Start, replies, end, fuel),
    ensures
        ({
            let backend_asked = replies.common is Ok && (media.context().plan is None
                || replies.req_handler is Ok);
            &&& end == Media {
                vu_common: VhostUserCommon {
                    vring_bases: end.vu_common.vring_bases,
                    ..media.vu_common
                },
                guest_memory: match replies.common {
                    Ok(mem) => Some(mem),
                    Err(_) => media.guest_memory,
                },
                epoll_thread: if media.context().result(replies) is Ok {
                    Some(replies.threads->Ok_0@[0])
                } else {
                    media.epoll_thread
                },
                ..media
            }
            &&& end.vring_bases() == if backend_asked && media.vring_bases() is None {
                Some(Seq::new(num_queues, |i: int| 0u64))
            } else {
                media.vring_bases()
            }
        }),
{
    reveal_with_fuel(activation_leads_to, 6);
}

/// What holds of a media device from its creation on is kept by everything that changes the
/// device.
pub proof fn law_media_stays_well_formed<V, M, T, R, A, H>(
    media: Media<V, M, T>,
    activation: ActivateEvent<M, R, T, A, H>,
    bases: Option<Vec<u64>>,
    cache: VirtioSharedMemoryList,
)
    requires
        media.wf(),
    ensures
        media.spec_activate_state(activation, bases).wf(),
        media.with_cache(cache).wf(),
{
}

/// The shared memory that was given last is the one that counts, also for the backend's requests.
pub proof fn law_media_last_shared_memory_counts<V, M, T>(
    media: Media<V, M, T>,
    first: VirtioSharedMemoryList,
    last: VirtioSharedMemoryList,
)
    ensures
        ({
            let after = media.with_cache(first).with_cache(last);
            &&& after == media.with_cache(last)
            &&& after == Media { cache: Some(last), ..media }
            &&& after.cache == Some(last)
            &&& after.context().plan matches Some(plan) ==> plan.handler.mapping == last.mapping
            &&& after.context().plan is Some <==> spec_backend_req_negotiated(
                media.vu_common.acked_protocol_features,
            )
        }),
{
}

/// A new media device has all that its setup began with and all that its backend took. It has two
/// queues and is inactive.
pub proof fn law_new_media<V, M, T>(media: Media<V, M, T>, from: Negotiated<V>)
    requires
        media.created_from(from),
    ensures
        media.common.device_type == 48,
        media.common.avail_features == from.acked_features,
        media.common.acked_features == from.acked_features & 0x4000_0000,
        media.common.queue_sizes@ == seq![256u16, 256u16],
        media.common.min_queues == media.common.queue_sizes@.len(),
        media.common.paused_sync == Some(2usize),
        media.common.pause_evt is None,
        media.common.kill_evt is None,
        media.vu_common.vu == Some(from.vu),
        media.vu_common.acked_protocol_features == from.acked_protocol_features,
        media.vu_common.socket_path == from.setup.path,
        media.vu_common.vu_num_queues == media.common.queue_sizes@.len(),
        media.vu_common.vring_bases is None,
        media.id == from.setup.id,
        media.cache is None,
        media.seccomp_action == from.setup.seccomp_action,
        media.guest_memory is None,
        media.epoll_thread is None,
        media.exit_evt == from.setup.exit_evt,
        media.access_platform_enabled == from.setup.access_platform,
{
}

/// A new media device offers the guest what its backend took, and `ACCESS_PLATFORM` where it sits
/// behind an IOMMU. Of all that only `PROTOCOL_FEATURES` counts as acknowledged, if the backend
/// took it.
pub proof fn law_new_media_features<V, M, T>(media: Media<V, M, T>, from: Negotiated<V>, i: u64)
    requires
        media.created_from(from),
        i < 64,
    ensures
        has_bit(
            spec_guest_features(media.common.avail_features, media.access_platform_enabled),
            i,
        ) <==> has_bit(from.acked_features, i) || (from.setup.access_platform && i == 33),
        has_bit(media.common.acked_features, i) <==> i == 30 && has_bit(from.acked_features, 30),
{
    law_guest_features(media.common.avail_features, media.access_platform_enabled, i);
    law_preacked_features(from.acked_features, i);
}

} // verus!
