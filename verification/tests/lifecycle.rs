use vhost_user_devices::lifecycle::{
    pause_step, resume_step, PauseEvent, PauseStep, ResumeEvent, ResumeStep,
};

#[test]
fn pausing_asks_the_backend_first() {
    assert_eq!(pause_step::<&str>(PauseEvent::Start), PauseStep::PauseBackend);
    assert_eq!(pause_step::<&str>(PauseEvent::BackendPaused(Ok(()))), PauseStep::PauseCommon);
    assert_eq!(pause_step::<&str>(PauseEvent::CommonPaused(Ok(()))), PauseStep::Return(Ok(())));
}

#[test]
fn pausing_reports_the_first_error() {
    assert_eq!(
        pause_step(PauseEvent::BackendPaused(Err("backend"))),
        PauseStep::Return(Err("backend"))
    );
    assert_eq!(
        pause_step(PauseEvent::CommonPaused(Err("common"))),
        PauseStep::Return(Err("common"))
    );
}

#[test]
fn resuming_asks_the_backend_last() {
    assert_eq!(resume_step::<&str>(true, ResumeEvent::Start), ResumeStep::ResumeCommon);
    assert_eq!(
        resume_step::<&str>(true, ResumeEvent::CommonResumed(Ok(()))),
        ResumeStep::Unpark
    );
    assert_eq!(
        resume_step::<&str>(false, ResumeEvent::CommonResumed(Ok(()))),
        ResumeStep::ResumeBackend
    );
    assert_eq!(resume_step::<&str>(true, ResumeEvent::Unparked), ResumeStep::ResumeBackend);
    assert_eq!(
        resume_step::<&str>(true, ResumeEvent::BackendResumed(Ok(()))),
        ResumeStep::Return(Ok(()))
    );
}

#[test]
fn resuming_reports_the_first_error() {
    assert_eq!(
        resume_step(true, ResumeEvent::CommonResumed(Err("common"))),
        ResumeStep::Return(Err("common"))
    );
    assert_eq!(
        resume_step(false, ResumeEvent::BackendResumed(Err("backend"))),
        ResumeStep::Return(Err("backend"))
    );
}
