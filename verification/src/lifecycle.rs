//! Pausing and resuming a device: which part is asked next, given what the last one answered.

use vstd::prelude::*;

verus! {

/// What has happened so far when a device is paused.
#[derive(Debug, PartialEq, Eq)]
pub enum PauseEvent<E> {
    /// Nothing yet.
    Start,
    /// The backend was asked to pause.
    BackendPaused(Result<(), E>),
    /// The device's own part was asked to pause.
    CommonPaused(Result<(), E>),
}

/// What is to be done next when a device is paused.
#[derive(Debug, PartialEq, Eq)]
pub enum PauseStep<E> {
    /// Pause the backend.
    PauseBackend,
    /// Pause the device's own part.
    PauseCommon,
    /// Report this result.
    Return(Result<(), E>),
}

/// What has happened so far when a device is resumed.
#[derive(Debug, PartialEq, Eq)]
pub enum ResumeEvent<E> {
    /// Nothing yet.
    Start,
    /// The device's own part was asked to resume.
    CommonResumed(Result<(), E>),
    /// The device's thread was woken.
    Unparked,
    /// The backend was asked to resume.
    BackendResumed(Result<(), E>),
}

/// What is to be done next when a device is resumed.
#[derive(Debug, PartialEq, Eq)]
pub enum ResumeStep<E> {
    /// Resume the device's own part.
    ResumeCommon,
    /// Wake the device's thread.
    Unpark,
    /// Resume the backend.
    ResumeBackend,
    /// Report this result.
    Return(Result<(), E>),
}

/// The step that follows `event` when a device is paused: the backend goes first, and the device's
/// own part follows only once the backend has paused.
pub open spec fn spec_pause<E>(event: PauseEvent<E>) -> PauseStep<E> {
    match event {
        PauseEvent::Start => PauseStep::PauseBackend,
        PauseEvent::BackendPaused(Ok(_)) => PauseStep::PauseCommon,
        PauseEvent::BackendPaused(Err(e)) => PauseStep::Return(Err(e)),
        PauseEvent::CommonPaused(result) => PauseStep::Return(result),
    }
}

/// The step that follows `event` when a device is resumed: the device's own part goes first, then
/// its thread is woken if it has one, and the backend comes last.
pub open spec fn spec_resume<E>(has_thread: bool, event: ResumeEvent<E>) -> ResumeStep<E> {
    match event {
        ResumeEvent::Start => ResumeStep::ResumeCommon,
        ResumeEvent::CommonResumed(Err(e)) => ResumeStep::Return(Err(e)),
        ResumeEvent::CommonResumed(Ok(_)) => if has_thread {
            ResumeStep::Unpark
        } else {
            ResumeStep::ResumeBackend
        },
        ResumeEvent::Unparked => ResumeStep::ResumeBackend,
        ResumeEvent::BackendResumed(result) => ResumeStep::Return(result),
    }
}

/// The step that follows `event` when a device is paused.
pub fn pause_step<E>(event: PauseEvent<E>) -> (step: PauseStep<E>)
    ensures
        step == spec_pause(event),
        match event {
            PauseEvent::Start => step is PauseBackend,
            PauseEvent::BackendPaused(Ok(_)) => step is PauseCommon,
            PauseEvent::BackendPaused(Err(e)) => step == PauseStep::Return(Err(e)),
            PauseEvent::CommonPaused(result) => step == PauseStep::Return(result),
        },
{
    match event {
        PauseEvent::Start => PauseStep::PauseBackend,
        PauseEvent::BackendPaused(result) => match result {
            Ok(_) => PauseStep::PauseCommon,
            Err(e) => PauseStep::Return(Err(e)),
        },
        PauseEvent::CommonPaused(result) => PauseStep::Return(result),
    }
}

/// The step that follows `event` when a device is resumed.
pub fn resume_step<E>(has_thread: bool, event: ResumeEvent<E>) -> (step: ResumeStep<E>)
    ensures
        step == spec_resume(has_thread, event),
        match event {
            ResumeEvent::Start => step is ResumeCommon,
            ResumeEvent::CommonResumed(Ok(_)) => if has_thread {
                step is Unpark
            } else {
                step is ResumeBackend
            },
            ResumeEvent::CommonResumed(Err(e)) => step == ResumeStep::Return(Err(e)),
            ResumeEvent::Unparked => step is ResumeBackend,
            ResumeEvent::BackendResumed(result) => step == ResumeStep::Return(result),
        },
{
    match event {
        ResumeEvent::Start => ResumeStep::ResumeCommon,
        ResumeEvent::CommonResumed(result) => match result {
            Ok(_) => if has_thread {
                ResumeStep::Unpark
            } else {
                ResumeStep::ResumeBackend
            },
            Err(e) => ResumeStep::Return(Err(e)),
        },
        ResumeEvent::Unparked => ResumeStep::ResumeBackend,
        ResumeEvent::BackendResumed(result) => ResumeStep::Return(result),
    }
}

/// All the steps from `event` on, where the backend answers `backend` and the device's own part
/// answers `common`. At most `fuel` steps are followed.
pub open spec fn pause_run<E>(
    event: PauseEvent<E>,
    backend: Result<(), E>,
    common: Result<(), E>,
    fuel: nat,
) -> Seq<PauseStep<E>>
    decreases fuel,
{
    let step = spec_pause(event);
    if fuel == 0 {
        Seq::empty()
    } else {
        let rest = (fuel - 1) as nat;
        match step {
            PauseStep::PauseBackend => seq![step] + pause_run(
                PauseEvent::BackendPaused(backend),
                backend,
                common,
                rest,
            ),
            PauseStep::PauseCommon => seq![step] + pause_run(
                PauseEvent::CommonPaused(common),
                backend,
                common,
                rest,
            ),
            PauseStep::Return(_) => seq![step],
        }
    }
}

/// All the steps from `event` on, where the device's own part answers `common` and the backend
/// answers `backend`. At most `fuel` steps are followed.
pub open spec fn resume_run<E>(
    has_thread: bool,
    event: ResumeEvent<E>,
    common: Result<(), E>,
    backend: Result<(), E>,
    fuel: nat,
) -> Seq<ResumeStep<E>>
    decreases fuel,
{
    let step = spec_resume(has_thread, event);
    if fuel == 0 {
        Seq::empty()
    } else {
        let rest = (fuel - 1) as nat;
        match step {
            ResumeStep::ResumeCommon => seq![step] + resume_run(
                has_thread,
                ResumeEvent::CommonResumed(common),
                common,
                backend,
                rest,
            ),
            ResumeStep::Unpark => seq![step] + resume_run(
                has_thread,
                ResumeEvent::Unparked,
                common,
                backend,
                rest,
            ),
            ResumeStep::ResumeBackend => seq![step] + resume_run(
                has_thread,
                ResumeEvent::BackendResumed(backend),
                common,
                backend,
                rest,
            ),
            ResumeStep::Return(_) => seq![step],
        }
    }
}

/// Pausing ends within three steps. A backend that cannot pause ends it with its error before the
/// device's own part is touched; otherwise the device's own part decides.
pub proof fn law_pause<E>(backend: Result<(), E>, common: Result<(), E>, fuel: nat)
    requires
        fuel >= 3,
    ensures
        pause_run(PauseEvent::Start, backend, common, fuel) == match backend {
            Ok(_) => seq![
                PauseStep::PauseBackend,
                PauseStep::PauseCommon,
                PauseStep::Return(common),
            ],
            Err(e) => seq![PauseStep::PauseBackend, PauseStep::Return(Err(e))],
        },
{
    reveal_with_fuel(pause_run, 3);
}

/// Resuming ends within four steps. A device whose own part cannot resume reports its error and
/// neither its thread nor the backend is touched; otherwise the thread is woken where there is
/// one, and the backend decides.
pub proof fn law_resume<E>(
    has_thread: bool,
    common: Result<(), E>,
    backend: Result<(), E>,
    fuel: nat,
)
    requires
        fuel >= 4,
    ensures
        resume_run(has_thread, ResumeEvent::Start, common, backend, fuel) == match common {
            Ok(_) => if has_thread {
                seq![
                    ResumeStep::ResumeCommon,
                    ResumeStep::Unpark,
                    ResumeStep::ResumeBackend,
                    ResumeStep::Return(backend),
                ]
            } else {
                seq![
                    ResumeStep::ResumeCommon,
                    ResumeStep::ResumeBackend,
                    ResumeStep::Return(backend),
                ]
            },
            Err(e) => seq![ResumeStep::ResumeCommon, ResumeStep::Return(Err(e))],
        },
{
    reveal_with_fuel(resume_run, 4);
}

} // verus!
