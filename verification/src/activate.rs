//! Bringing a device to life: the parts of the activation, in the order in which they are asked
//! for, and the answers that each of them may give.

use crate::device::DeviceEvent;
use crate::device::Error;
use crate::device::VirtioSharedMemoryList;
use crate::features::has_bit;
use crate::features::law_requests_go_by_their_own_bits;
use crate::features::reply_ack_negotiated;
use crate::features::spec_reply_ack_negotiated;
use crate::shmem::law_calls_stay_inside;
use crate::shmem::spec_map_call;
use crate::shmem::spec_unmap_call;
use crate::shmem::BackendReqHandler;
use crate::shmem::VhostUserMMap;
use seccompiler::SeccompAction;
use vmm_sys_util::eventfd::EventFd;
use vstd::prelude::*;

verus! {

/// The threads of the monitor that serve such devices.
#[derive(Clone, Copy, Debug, PartialEq, Eq, Structural)]
pub enum Thread {
    VirtioVhostGpu,
    VirtioVhostMedia,
}

/// The channel on which the backend sends its requests, as it is to be made.
#[derive(Clone, Copy, Debug)]
pub struct ReqHandlerPlan {
    /// Answers the requests.
    pub handler: BackendReqHandler,
    /// Whether each request is acknowledged.
    pub reply_ack: bool,
}

/// What the backend is activated with. `R` is the channel for the backend's requests.
#[derive(Debug, PartialEq, Eq)]
pub struct BackendActivation<R> {
    pub acked_features: u64,
    pub req_handler: Option<R>,
}

/// What the device's thread is started with.
#[derive(Clone, Copy)]
pub struct SpawnRequest<'a> {
    pub id: &'a str,
    pub seccomp_action: &'a SeccompAction,
    pub thread: Thread,
    pub exit_evt: &'a EventFd,
    /// How many parties meet at the barrier when the device is paused.
    pub paused_sync: Option<usize>,
}

/// Why a device could not be activated. `A` is the error of a part of the monitor, `H` that of
/// the vhost-user library.
#[derive(Debug, PartialEq, Eq)]
pub enum ActivateError<A, H> {
    /// A part of the monitor failed.
    Device(A),
    /// The gpu device's channel for the backend's requests could not be made.
    VhostUserGpuSetup(Error<H>),
    /// Another device's channel for the backend's requests could not be made.
    VhostUserSetup(Error<H>),
}

/// What has happened so far when a device is activated. `M` is the guest's memory, `R` the
/// channel for the backend's requests and `T` a thread.
#[derive(Debug, PartialEq, Eq)]
pub enum ActivateEvent<M, R, T, A, H> {
    /// Nothing yet.
    Start,
    /// The device's own part was activated for a guest with this memory.
    CommonActivated(Result<M, A>),
    /// The channel for the backend's requests was made.
    ReqHandlerCreated(Result<R, H>),
    /// The backend was activated.
    BackendActivated(Result<(), A>),
    /// The device's thread was started.
    ThreadSpawned(Result<Vec<T>, A>),
    /// The activation was announced.
    Announced,
}

/// What is to be done next when a device is activated.
pub enum ActivateStep<R, A, H> {
    /// Activate the device's own part.
    ActivateCommon,
    /// Make the channel for the backend's requests.
    CreateReqHandler(ReqHandlerPlan),
    /// Activate the backend.
    ActivateBackend(BackendActivation<R>),
    /// Start the device's thread.
    SpawnThread,
    /// Tell the monitor's observers.
    Announce(DeviceEvent),
    /// Report this result.
    Return(Result<(), ActivateError<A, H>>),
}

/// What of a device decides about its activation.
#[derive(Clone, Copy, Debug)]
pub struct ActivateContext {
    /// The channel for the backend's requests, where there is to be one.
    pub plan: Option<ReqHandlerPlan>,
    pub acked_features: u64,
    /// The thread that is to serve the device.
    pub thread: Thread,
}

/// What a device keeps of an event of its activation.
pub struct Learned<M, T> {
    /// The guest's memory.
    pub mem: Option<M>,
    /// The threads that were started.
    pub threads: Option<Vec<T>>,
}

impl<M, R, T, A, H> ActivateEvent<M, R, T, A, H> {
    /// What a device keeps of the event: the guest's memory once its own part is active, and its
    /// threads once they run.
    pub open spec fn learned(self) -> Learned<M, T> {
        Learned {
            mem: match self {
                ActivateEvent::CommonActivated(Ok(mem)) => Some(mem),
                _ => None,
            },
            threads: match self {
                ActivateEvent::ThreadSpawned(Ok(threads)) => Some(threads),
                _ => None,
            },
        }
    }
}

/// The answers that the parts of an activation give, where they are asked.
pub struct ActivateReplies<M, R, T, A, H> {
    pub common: Result<M, A>,
    pub req_handler: Result<R, H>,
    pub backend: Result<(), A>,
    pub threads: Result<Vec<T>, A>,
}

impl<M, R, T, A, H> ActivateReplies<M, R, T, A, H> {
    /// What has happened once `step` was done and answered.
    pub open spec fn answer(self, step: ActivateStep<R, A, H>) -> ActivateEvent<M, R, T, A, H> {
        match step {
            ActivateStep::ActivateCommon => ActivateEvent::CommonActivated(self.common),
            ActivateStep::CreateReqHandler(_) => ActivateEvent::ReqHandlerCreated(
                self.req_handler,
            ),
            ActivateStep::ActivateBackend(_) => ActivateEvent::BackendActivated(self.backend),
            ActivateStep::SpawnThread => ActivateEvent::ThreadSpawned(self.threads),
            ActivateStep::Announce(_) => ActivateEvent::Announced,
            ActivateStep::Return(_) => ActivateEvent::Start,
        }
    }
}

/// The channel for the backend's requests: there is one where the backend may send requests and
/// there is memory to share, and it acknowledges where both sides agreed on that.
pub open spec fn spec_req_handler_plan(
    backend_req: bool,
    cache: Option<VirtioSharedMemoryList>,
    acked_protocol_features: u64,
) -> Option<ReqHandlerPlan> {
    if backend_req && cache is Some {
        Some(
            ReqHandlerPlan {
                handler: BackendReqHandler { mapping: cache->0.mapping },
                reply_ack: spec_reply_ack_negotiated(acked_protocol_features),
            },
        )
    } else {
        None
    }
}

/// The channel for the backend's requests.
pub fn req_handler_plan(
    backend_req: bool,
    cache: &Option<VirtioSharedMemoryList>,
    acked_protocol_features: u64,
) -> (plan: Option<ReqHandlerPlan>)
    ensures
        plan == spec_req_handler_plan(backend_req, *cache, acked_protocol_features),
        plan is Some <==> backend_req && cache is Some,
        plan matches Some(plan) ==> {
            &&& plan.handler.mapping == cache->0.mapping
            &&& plan.reply_ack == (acked_protocol_features & 0x8 != 0)
        },
{
    if !backend_req {
        return None;
    }
    match cache {
        Some(cache) => Some(
            ReqHandlerPlan {
                handler: BackendReqHandler { mapping: cache.mapping },
                reply_ack: reply_ack_negotiated(acked_protocol_features),
            },
        ),
        None => None,
    }
}

impl ActivateContext {
    /// What the backend is activated with, given the channel for its requests.
    pub open spec fn spec_backend_activation<R>(self, req_handler: Option<R>) -> BackendActivation<
        R,
    > {
        BackendActivation { acked_features: self.acked_features, req_handler }
    }

    /// The error of a device whose channel for the backend's requests could not be made.
    pub open spec fn spec_setup_error<A, H>(self, e: H) -> ActivateError<A, H> {
        match self.thread {
            Thread::VirtioVhostGpu => ActivateError::VhostUserGpuSetup(
                Error::FrontendReqHandlerCreation(e),
            ),
            Thread::VirtioVhostMedia => ActivateError::VhostUserSetup(
                Error::FrontendReqHandlerCreation(e),
            ),
        }
    }

    /// The step that follows `event`: the device's own part, the channel for the backend's
    /// requests where there is one, the backend, the thread, and the announcement that all is done.
    /// An error ends the activation.
    pub open spec fn spec_step<M, R, T, A, H>(
        self,
        event: ActivateEvent<M, R, T, A, H>,
    ) -> ActivateStep<R, A, H> {
        match event {
            ActivateEvent::Start => ActivateStep::ActivateCommon,
            ActivateEvent::CommonActivated(Ok(_)) => match self.plan {
                Some(plan) => ActivateStep::CreateReqHandler(plan),
                None => ActivateStep::ActivateBackend(self.spec_backend_activation(None)),
            },
            ActivateEvent::ReqHandlerCreated(Ok(req_handler)) => ActivateStep::ActivateBackend(
                self.spec_backend_activation(Some(req_handler)),
            ),
            ActivateEvent::BackendActivated(Ok(_)) => ActivateStep::SpawnThread,
            ActivateEvent::ThreadSpawned(Ok(_)) => ActivateStep::Announce(DeviceEvent::Activated),
            ActivateEvent::Announced => ActivateStep::Return(Ok(())),
            ActivateEvent::ReqHandlerCreated(Err(e)) => ActivateStep::Return(
                Err(self.spec_setup_error(e)),
            ),
            ActivateEvent::CommonActivated(Err(e)) => ActivateStep::Return(
                Err(ActivateError::Device(e)),
            ),
            ActivateEvent::BackendActivated(Err(e)) => ActivateStep::Return(
                Err(ActivateError::Device(e)),
            ),
            ActivateEvent::ThreadSpawned(Err(e)) => ActivateStep::Return(
                Err(ActivateError::Device(e)),
            ),
        }
    }

    /// The step that follows `event`, and what the device keeps of it.
    pub fn step<M, R, T, A, H>(&self, event: ActivateEvent<M, R, T, A, H>) -> (step: (
        ActivateStep<R, A, H>,
        Learned<M, T>,
    ))
        ensures
            step.0 == self.spec_step(event),
            step.1 == event.learned(),
            match event {
                ActivateEvent::Start => step.0 is ActivateCommon,
                ActivateEvent::CommonActivated(Ok(_)) => if self.plan is Some {
                    step.0 is CreateReqHandler
                } else {
                    step.0 matches ActivateStep::ActivateBackend(activation)
                        && activation.req_handler is None
                },
                ActivateEvent::CommonActivated(Err(e)) => step.0 == ActivateStep::<R, A, H>::Return(
                    Err(ActivateError::Device(e)),
                ),
                ActivateEvent::ReqHandlerCreated(Ok(channel)) => {
                    step.0 matches ActivateStep::ActivateBackend(activation)
                        && activation.req_handler == Some(channel)
                },
                ActivateEvent::ReqHandlerCreated(Err(e)) => step.0
                    == ActivateStep::<R, A, H>::Return(
                    Err(match self.thread {
                        Thread::VirtioVhostGpu => ActivateError::VhostUserGpuSetup(
                            Error::FrontendReqHandlerCreation(e),
                        ),
                        Thread::VirtioVhostMedia => ActivateError::VhostUserSetup(
                            Error::FrontendReqHandlerCreation(e),
                        ),
                    }),
                ),
                ActivateEvent::BackendActivated(Ok(_)) => step.0 is SpawnThread,
                ActivateEvent::BackendActivated(Err(e)) => step.0
                    == ActivateStep::<R, A, H>::Return(
                    Err(ActivateError::Device(e)),
                ),
                ActivateEvent::ThreadSpawned(Ok(_)) => step.0 == ActivateStep::<R, A, H>::Announce(
                    DeviceEvent::Activated,
                ),
                ActivateEvent::ThreadSpawned(Err(e)) => step.0 == ActivateStep::<R, A, H>::Return(
                    Err(ActivateError::Device(e)),
                ),
                ActivateEvent::Announced => step.0 == ActivateStep::<R, A, H>::Return(Ok(())),
            },
            step.0 matches ActivateStep::CreateReqHandler(plan) ==> self.plan == Some(plan),
            step.0 matches ActivateStep::ActivateBackend(activation) ==> activation.acked_features
                == self.acked_features,
            match event {
                ActivateEvent::CommonActivated(Ok(mem)) => step.1.mem == Some(mem),
                _ => step.1.mem is None,
            },
            match event {
                ActivateEvent::ThreadSpawned(Ok(threads)) => step.1.threads == Some(threads),
                _ => step.1.threads is None,
            },
    {
        let mut learned: Learned<M, T> = Learned { mem: None, threads: None };
        let step = match event {
            ActivateEvent::Start => ActivateStep::ActivateCommon,
            ActivateEvent::CommonActivated(result) => match result {
                Ok(mem) => {
                    learned.mem = Some(mem);
                    match self.plan {
                        Some(plan) => ActivateStep::CreateReqHandler(plan),
                        None => ActivateStep::ActivateBackend(self.backend_activation(None)),
                    }
                },
                Err(e) => ActivateStep::Return(Err(ActivateError::Device(e))),
            },
            ActivateEvent::ReqHandlerCreated(result) => match result {
                Ok(req_handler) => ActivateStep::ActivateBackend(
                    self.backend_activation(Some(req_handler)),
                ),
                Err(e) => {
                    let error = Error::FrontendReqHandlerCreation(e);
                    ActivateStep::Return(
                        match self.thread {
                            Thread::VirtioVhostGpu => Err(ActivateError::VhostUserGpuSetup(error)),
                            Thread::VirtioVhostMedia => Err(ActivateError::VhostUserSetup(error)),
                        },
                    )
                },
            },
            ActivateEvent::BackendActivated(result) => match result {
                Ok(_) => ActivateStep::SpawnThread,
                Err(e) => ActivateStep::Return(Err(ActivateError::Device(e))),
            },
            ActivateEvent::ThreadSpawned(result) => match result {
                Ok(threads) => {
                    learned.threads = Some(threads);
                    ActivateStep::Announce(DeviceEvent::Activated)
                },
                Err(e) => ActivateStep::Return(Err(ActivateError::Device(e))),
            },
            ActivateEvent::Announced => ActivateStep::Return(Ok(())),
        };
        (step, learned)
    }

    fn backend_activation<R>(&self, req_handler: Option<R>) -> (activation: BackendActivation<R>)
        ensures
            activation == self.spec_backend_activation(req_handler),
    {
        BackendActivation { acked_features: self.acked_features, req_handler }
    }

    /// The result of an activation: the error of the first part that fails among those that are
    /// asked, or success.
    pub open spec fn result<M, R, T, A, H>(
        self,
        replies: ActivateReplies<M, R, T, A, H>,
    ) -> Result<(), ActivateError<A, H>> {
        if replies.common is Err {
            Err(ActivateError::Device(replies.common->Err_0))
        } else if self.plan is Some && replies.req_handler is Err {
            Err(self.spec_setup_error(replies.req_handler->Err_0))
        } else if replies.backend is Err {
            Err(ActivateError::Device(replies.backend->Err_0))
        } else if replies.threads is Err {
            Err(ActivateError::Device(replies.threads->Err_0))
        } else {
            Ok(())
        }
    }

    /// All the steps of an activation from `event` on. At most `fuel` steps are followed.
    pub open spec fn run<M, R, T, A, H>(
        self,
        event: ActivateEvent<M, R, T, A, H>,
        replies: ActivateReplies<M, R, T, A, H>,
        fuel: nat,
    ) -> Seq<ActivateStep<R, A, H>>
        decreases fuel,
    {
        let step = self.spec_step(event);
        if fuel == 0 {
            Seq::empty()
        } else if step is Return {
            seq![step]
        } else {
            seq![step] + self.run(replies.answer(step), replies, (fuel - 1) as nat)
        }
    }
}

/// The parts of an activation are asked in this order: the device's own part, the channel for the
/// backend's requests where there is to be one, the backend, the thread; then all is announced.
/// Each error ends the activation. The backend is activated with the features of the device and
/// with the channel that was made.
pub proof fn law_activation_step<M, R, T, A, H>(
    context: ActivateContext,
    event: ActivateEvent<M, R, T, A, H>,
)
    ensures
        ({
            let step = context.spec_step(event);
            &&& match event {
                ActivateEvent::Start => step is ActivateCommon,
                ActivateEvent::CommonActivated(Ok(_)) => if context.plan is Some {
                    step is CreateReqHandler
                } else {
                    step matches ActivateStep::ActivateBackend(activation)
                        && activation.req_handler is None
                },
                ActivateEvent::CommonActivated(Err(e)) => step == ActivateStep::<R, A, H>::Return(
                    Err(ActivateError::Device(e)),
                ),
                ActivateEvent::ReqHandlerCreated(Ok(channel)) => {
                    step matches ActivateStep::ActivateBackend(activation)
                        && activation.req_handler == Some(channel)
                },
                ActivateEvent::ReqHandlerCreated(Err(e)) => step == ActivateStep::<R, A, H>::Return(
                    Err(match context.thread {
                        Thread::VirtioVhostGpu => ActivateError::VhostUserGpuSetup(
                            Error::FrontendReqHandlerCreation(e),
                        ),
                        Thread::VirtioVhostMedia => ActivateError::VhostUserSetup(
                            Error::FrontendReqHandlerCreation(e),
                        ),
                    }),
                ),
                ActivateEvent::BackendActivated(Ok(_)) => step is SpawnThread,
                ActivateEvent::BackendActivated(Err(e)) => step == ActivateStep::<R, A, H>::Return(
                    Err(ActivateError::Device(e)),
                ),
                ActivateEvent::ThreadSpawned(Ok(_)) => step == ActivateStep::<R, A, H>::Announce(
                    DeviceEvent::Activated,
                ),
                ActivateEvent::ThreadSpawned(Err(e)) => step == ActivateStep::<R, A, H>::Return(
                    Err(ActivateError::Device(e)),
                ),
                ActivateEvent::Announced => step == ActivateStep::<R, A, H>::Return(Ok(())),
            }
            &&& step matches ActivateStep::CreateReqHandler(plan) ==> context.plan == Some(plan)
            &&& step matches ActivateStep::ActivateBackend(activation) ==> activation.acked_features
                == context.acked_features
        }),
{
}

/// A device keeps the guest's memory of one event, its threads of another, and nothing of the
/// rest.
pub proof fn law_learned<M, R, T, A, H>(event: ActivateEvent<M, R, T, A, H>)
    ensures
        forall|mem: M|
            event.learned().mem == Some(mem) <==> event
                == ActivateEvent::<M, R, T, A, H>::CommonActivated(Ok(mem)),
        forall|threads: Vec<T>|
            event.learned().threads == Some(threads) <==> event
                == ActivateEvent::<M, R, T, A, H>::ThreadSpawned(Ok(threads)),
{
}

/// An activation begins with the device's own part and ends within six steps. It reports the
/// first error among its parts, and success if there is none.
pub proof fn law_activation_ends<M, R, T, A, H>(
    context: ActivateContext,
    replies: ActivateReplies<M, R, T, A, H>,
    fuel: nat,
)
    requires
        fuel >= 6,
    ensures
        ({
            let steps = context.run(ActivateEvent::Start, replies, fuel);
            &&& 2 <= steps.len() <= 6
            &&& steps[0] is ActivateCommon
            &&& steps.last() == ActivateStep::<R, A, H>::Return(context.result(replies))
        }),
{
    reveal_with_fuel(ActivateContext::run, 6);
}

/// Where the backend is activated, it gets the channel for its requests exactly if there is to be
/// one, made as planned and right before. The thread starts only after the backend is active. The
/// activation is announced exactly if it succeeds, once, and last of all.
pub proof fn law_activation_order<M, R, T, A, H>(
    context: ActivateContext,
    replies: ActivateReplies<M, R, T, A, H>,
    fuel: nat,
    i: int,
)
    requires
        fuel >= 6,
        0 <= i < context.run(ActivateEvent::Start, replies, fuel).len(),
    ensures
        ({
            let steps = context.run(ActivateEvent::Start, replies, fuel);
            &&& steps[i] matches ActivateStep::CreateReqHandler(plan) ==> {
                &&& context.plan == Some(plan)
                &&& replies.common is Ok
            }
            &&& steps[i] matches ActivateStep::ActivateBackend(activation) ==> {
                &&& activation.acked_features == context.acked_features
                &&& activation.req_handler is Some <==> context.plan is Some
                &&& context.plan matches Some(plan) ==> {
                    &&& i > 0
                    &&& steps[i - 1] == ActivateStep::<R, A, H>::CreateReqHandler(plan)
                    &&& replies.req_handler == Ok::<R, H>(activation.req_handler->0)
                }
            }
            &&& steps[i] is SpawnThread ==> {
                &&& i > 0
                &&& steps[i - 1] is ActivateBackend
                &&& replies.backend is Ok
            }
            &&& steps[i] is Announce <==> {
                &&& context.result(replies) is Ok
                &&& i == steps.len() - 2
            }
            &&& steps[i] matches ActivateStep::Announce(event) ==> event == DeviceEvent::Activated
        }),
{
    reveal_with_fuel(ActivateContext::run, 6);
}

/// The backend's requests are answered exactly where the backend may send them and there is memory
/// to share. They concern that memory and no other.
pub proof fn law_req_handler_plan(
    backend_req: bool,
    cache: Option<VirtioSharedMemoryList>,
    acked_protocol_features: u64,
)
    ensures
        ({
            let plan = spec_req_handler_plan(backend_req, cache, acked_protocol_features);
            &&& plan is Some <==> backend_req && cache is Some
            &&& plan matches Some(plan) ==> {
                &&& plan.handler.mapping == cache->0.mapping
                &&& plan.reply_ack == has_bit(acked_protocol_features, 3)
                &&& plan.reply_ack == (acked_protocol_features & 0x8 == 0x8)
            }
        }),
{
    law_requests_go_by_their_own_bits(acked_protocol_features, acked_protocol_features);
}

/// Whatever the backend asks for on its channel, no call that it leads to touches memory outside
/// what the device shares with the guest.
pub proof fn law_requests_stay_in_shared_memory(
    backend_req: bool,
    cache: Option<VirtioSharedMemoryList>,
    acked_protocol_features: u64,
    req: VhostUserMMap,
    fd: i32,
)
    requires
        cache is Some ==> cache->0.mapping.wf(),
    ensures
        spec_req_handler_plan(backend_req, cache, acked_protocol_features) matches Some(plan)
            ==> plan.handler.accepts(req) ==> {
            &&& spec_map_call(plan.handler.mapping, req, fd).inside(cache->0.mapping)
            &&& spec_unmap_call(plan.handler.mapping, req).inside(cache->0.mapping)
        },
{
    if let Some(plan) = spec_req_handler_plan(backend_req, cache, acked_protocol_features) {
        if plan.handler.accepts(req) {
            law_calls_stay_inside(plan.handler, req, fd);
        }
    }
}

} // verus!
