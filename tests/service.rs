use code_cli::args::{Cli, TunnelServiceSubCommands};
use code_cli::service::{
    service, ServiceCommandError, ServiceError, ServiceManager, ServiceOutcome,
    TunnelServiceContainer,
};

fn manager() -> ServiceManager {
    ServiceManager { supported: true, privileged: true, registration: None }
}

#[test]
fn install_without_login_registers_nothing() {
    let mut m = manager();
    let r = service(&mut m, TunnelServiceSubCommands::Install, false, true, "/bin/code".to_string(), &"/data".to_string());
    assert_eq!(r, Err(ServiceCommandError::Unauthenticated));
    assert!(m.registration.is_none());
}

#[test]
fn install_without_consent_registers_nothing() {
    let mut m = manager();
    let r = service(&mut m, TunnelServiceSubCommands::Install, true, false, "/bin/code".to_string(), &"/data".to_string());
    assert_eq!(r, Err(ServiceCommandError::ConsentRequired));
    assert!(m.registration.is_none());
}

#[test]
fn install_registers_internal_run() {
    let mut m = manager();
    let r = service(&mut m, TunnelServiceSubCommands::Install, true, true, "/bin/code".to_string(), &"/data".to_string());
    assert_eq!(r, Ok(ServiceOutcome::Exit(0)));
    let reg = m.registration.clone().unwrap();
    assert_eq!(reg.executable, "/bin/code");
    assert_eq!(reg.args, vec!["--cli-data-dir", "/data", "tunnel", "service", "internal-run"]);
    let r = service(&mut m, TunnelServiceSubCommands::Install, true, true, "/bin/code2".to_string(), &"/d2".to_string());
    assert_eq!(r, Ok(ServiceOutcome::Exit(0)));
    assert_eq!(m.registration.unwrap().executable, "/bin/code2");
}

#[test]
fn install_errors_from_platform() {
    let mut m = ServiceManager { supported: false, privileged: true, registration: None };
    let r = service(&mut m, TunnelServiceSubCommands::Install, true, true, "x".to_string(), &"d".to_string());
    assert_eq!(r, Err(ServiceCommandError::Service(ServiceError::PlatformUnsupported)));
    let mut m = ServiceManager { supported: true, privileged: false, registration: None };
    let r = service(&mut m, TunnelServiceSubCommands::Install, true, true, "x".to_string(), &"d".to_string());
    assert_eq!(r, Err(ServiceCommandError::Service(ServiceError::PermissionDenied)));
    assert!(m.registration.is_none());
}

#[test]
fn uninstall_is_idempotent() {
    let mut m = manager();
    service(&mut m, TunnelServiceSubCommands::Install, true, true, "x".to_string(), &"d".to_string()).unwrap();
    assert_eq!(service(&mut m, TunnelServiceSubCommands::Uninstall, true, true, "x".to_string(), &"d".to_string()), Ok(ServiceOutcome::Exit(0)));
    assert!(m.registration.is_none());
    assert_eq!(m.unregister(), Ok(()));
}

#[test]
fn internal_run_hands_over() {
    let mut m = manager();
    let r = service(&mut m, TunnelServiceSubCommands::InternalRun, false, false, "x".to_string(), &"d".to_string());
    assert_eq!(r, Ok(ServiceOutcome::RunService));
}

#[test]
fn container_serves_with_random_name() {
    let c = TunnelServiceContainer::new(Cli::default());
    let a = c.serve_args();
    assert!(a.random_name);
    assert!(a.tunnel.tunnel_id.is_none());
    assert!(c.code_server_args().accept_server_license_terms);
}
