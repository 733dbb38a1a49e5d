use audio_host::{BackendEvent, Callback, CallbackRegistry, Handlers, Stage};

fn all() -> Handlers {
    Handlers { setup: true, render: true, cleanup: true }
}

#[test]
fn setup_runs_once_before_the_first_render() {
    let mut r = CallbackRegistry::new(all());
    assert_eq!(r.stage(), Stage::Registered);
    assert_eq!(r.dispatch(BackendEvent::Block), None);
    assert_eq!(r.dispatch(BackendEvent::Start), Some(Callback::Setup));
    assert_eq!(r.stage(), Stage::SettingUp);
    assert_eq!(r.dispatch(BackendEvent::Block), None);
    assert_eq!(r.dispatch(BackendEvent::Start), None);
    assert_eq!(r.dispatch(BackendEvent::SetupReturned(true)), None);
    assert_eq!(r.stage(), Stage::Ready);
    assert_eq!(r.dispatch(BackendEvent::Block), Some(Callback::Render));
    assert_eq!(r.dispatch(BackendEvent::Start), None);
    assert_eq!(r.dispatch(BackendEvent::Block), Some(Callback::Render));
    assert_eq!(r.handlers(), all());
}

#[test]
fn a_failed_setup_runs_nothing_more() {
    let mut r = CallbackRegistry::new(all());
    assert_eq!(r.dispatch(BackendEvent::Start), Some(Callback::Setup));
    assert_eq!(r.dispatch(BackendEvent::SetupReturned(false)), None);
    assert_eq!(r.stage(), Stage::Failed);
    for event in [
        BackendEvent::Block,
        BackendEvent::Stop,
        BackendEvent::Start,
        BackendEvent::SetupReturned(true),
        BackendEvent::Block,
    ] {
        assert_eq!(r.dispatch(event), None);
        assert_eq!(r.stage(), Stage::Failed);
    }
}

#[test]
fn cleanup_runs_once_after_the_stop() {
    let mut r = CallbackRegistry::new(all());
    r.dispatch(BackendEvent::Start);
    r.dispatch(BackendEvent::SetupReturned(true));
    r.dispatch(BackendEvent::Block);
    assert_eq!(r.dispatch(BackendEvent::Stop), Some(Callback::Cleanup));
    assert_eq!(r.stage(), Stage::Finished);
    assert_eq!(r.dispatch(BackendEvent::Stop), None);
    assert_eq!(r.dispatch(BackendEvent::Block), None);
    assert_eq!(r.dispatch(BackendEvent::Start), None);
    assert_eq!(r.stage(), Stage::Finished);
}

#[test]
fn a_missing_setup_counts_as_success() {
    let mut r = CallbackRegistry::new(Handlers { setup: false, render: true, cleanup: false });
    assert_eq!(r.dispatch(BackendEvent::Start), None);
    assert_eq!(r.stage(), Stage::Ready);
    assert_eq!(r.dispatch(BackendEvent::Block), Some(Callback::Render));
    assert_eq!(r.dispatch(BackendEvent::Stop), None);
    assert_eq!(r.stage(), Stage::Finished);
}

#[test]
fn the_ramp_session_has_no_cleanup() {
    let mut r = CallbackRegistry::new(Handlers::ramp());
    assert_eq!(r.dispatch(BackendEvent::Start), Some(Callback::Setup));
    assert_eq!(r.dispatch(BackendEvent::SetupReturned(true)), None);
    assert_eq!(r.dispatch(BackendEvent::Block), Some(Callback::Render));
    assert_eq!(r.dispatch(BackendEvent::Stop), None);
    assert_eq!(r.stage(), Stage::Finished);
}

#[test]
fn a_session_without_handlers_does_nothing() {
    let mut r = CallbackRegistry::new(Handlers::none());
    for event in [
        BackendEvent::Start,
        BackendEvent::SetupReturned(true),
        BackendEvent::Block,
        BackendEvent::Block,
        BackendEvent::Stop,
    ] {
        assert_eq!(r.dispatch(event), None);
    }
    assert_eq!(r.stage(), Stage::Finished);
}
