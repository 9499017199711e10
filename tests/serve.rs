use code_cli::args::{ExistingTunnelArgs, TunnelServeArgs};
use code_cli::serve::{respawn_args, serve, ServeAction, ServeError, ServeEvent, ServeMachine, ServeState};
use code_cli::shutdown::{ShutdownCoordinator, ShutdownSource};

fn serving() -> ServeMachine {
    let mut m = ServeMachine::new();
    assert_eq!(m.step(ServeEvent::Start), ServeAction::CheckPrereqs);
    assert_eq!(m.step(ServeEvent::PrereqPassed), ServeAction::AcquireTunnel);
    assert_eq!(m.step(ServeEvent::TunnelAcquired), ServeAction::StartServing);
    m
}

#[test]
fn close_once_on_each_trigger() {
    for e in [ServeEvent::ShutdownFired, ServeEvent::LoopEnded(false), ServeEvent::LoopFailed] {
        let mut m = serving();
        assert_eq!(m.step(e), ServeAction::CloseTunnel);
        assert_eq!(m.step(ServeEvent::ShutdownFired), ServeAction::Ignore);
        assert_eq!(m.step(ServeEvent::LoopEnded(true)), ServeAction::Ignore);
        let code = if e == ServeEvent::LoopFailed { 1 } else { 0 };
        assert_eq!(m.step(ServeEvent::TunnelClosed), ServeAction::Exit(code));
        assert_eq!(m.state, ServeState::Done);
        assert_eq!(m.closes, 1);
    }
}

#[test]
fn prereq_failure_never_serves() {
    let mut m = ServeMachine::new();
    m.step(ServeEvent::Start);
    assert_eq!(m.step(ServeEvent::PrereqFailed), ServeAction::Exit(1));
    assert_eq!(m.closes, 0);
    assert_eq!(m.step(ServeEvent::TunnelAcquired), ServeAction::Ignore);
}

#[test]
fn unauthenticated_exits_with_one() {
    let mut m = ServeMachine::new();
    m.step(ServeEvent::Start);
    m.step(ServeEvent::PrereqPassed);
    assert_eq!(m.step(ServeEvent::Unauthenticated), ServeAction::Exit(1));
    assert_eq!(m.closes, 0);
}

#[test]
fn respawn_propagates_child_exit() {
    for (child, parent) in [(Some(0), 0), (Some(3), 3), (None, 1)] {
        let mut m = serving();
        assert_eq!(m.step(ServeEvent::LoopEnded(true)), ServeAction::CloseTunnel);
        assert_eq!(m.step(ServeEvent::TunnelClosed), ServeAction::Respawn);
        assert_eq!(m.state, ServeState::Respawning);
        assert_eq!(m.step(ServeEvent::ChildExited(child)), ServeAction::Exit(parent));
        assert_eq!(m.closes, 1);
    }
}

#[test]
fn respawn_failure_exits_with_one() {
    let mut m = serving();
    m.step(ServeEvent::LoopEnded(true));
    m.step(ServeEvent::TunnelClosed);
    assert_eq!(m.step(ServeEvent::RespawnFailed), ServeAction::Exit(1));
}

#[test]
fn respawn_args_drop_program_name() {
    let argv: Vec<String> = vec!["code".into(), "tunnel".into(), "--random-name".into()];
    assert_eq!(respawn_args(&argv), vec!["tunnel".to_string(), "--random-name".to_string()]);
    assert!(respawn_args(&Vec::new()).is_empty());
}

#[test]
fn serve_needs_consent() {
    assert!(matches!(serve(false, TunnelServeArgs::default()), Err(ServeError::ConsentRequired)));
    let args = TunnelServeArgs {
        tunnel: ExistingTunnelArgs {
            tunnel_name: Some("n".into()),
            host_token: Some("h".into()),
            tunnel_id: Some("i".into()),
            cluster: Some("c".into()),
        },
        random_name: false,
    };
    let plan = serve(true, args).ok().unwrap();
    assert!(plan.existing.is_some());
    assert_eq!(plan.machine.state, ServeState::Init);
}

#[test]
fn interactive_ignores_service_stop() {
    let mut c = ShutdownCoordinator::interactive();
    assert!(c.listener_installed());
    assert!(!c.has_stop_channel());
    assert!(!c.fire(ShutdownSource::ServiceStop));
    assert!(!c.is_fired());
    assert!(c.fire(ShutdownSource::Interrupt));
    assert!(!c.fire(ShutdownSource::Interrupt));
    assert!(c.is_fired());
}

#[test]
fn service_mode_has_no_listener() {
    let mut c = ShutdownCoordinator::for_service();
    assert!(!c.listener_installed());
    assert!(c.has_stop_channel());
    assert!(!c.fire(ShutdownSource::Interrupt));
    assert!(c.fire(ShutdownSource::ServiceStop));
    assert!(!c.fire(ShutdownSource::ServiceStop));
}
