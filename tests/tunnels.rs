use code_cli::args::{ExistingTunnelArgs, TunnelRenameArgs, TunnelUserSubCommands};
use code_cli::tunnels::{rename, unregister, user, ExistingTunnel, RegistryError, TunnelRegistry};

fn registry(logged_in: bool) -> TunnelRegistry {
    TunnelRegistry {
        credential: if logged_in { Some("tok".to_string()) } else { None },
        remote: Vec::new(),
        association: None,
        machine_name: "dev-box".to_string(),
        cluster: "usw2".to_string(),
        next_serial: 7,
    }
}

fn full_args() -> ExistingTunnelArgs {
    ExistingTunnelArgs {
        tunnel_name: Some("given".to_string()),
        host_token: Some("host".to_string()),
        tunnel_id: Some("id-1".to_string()),
        cluster: Some("euw".to_string()),
    }
}

#[test]
fn full_existing_spec_does_not_create() {
    let mut r = registry(true);
    let e = full_args().into_existing();
    assert!(e.is_some());
    let t = r.resolve(e, false).unwrap();
    assert_eq!(t.tunnel_id, "id-1");
    assert_eq!(t.tunnel_name, "given");
    assert_eq!(t.cluster, "euw");
    assert_eq!(t.host_token, "host");
    assert!(r.remote.is_empty());
    assert_eq!(r.next_serial, 7);
    assert_eq!(r.association, Some("id-1".to_string()));
}

#[test]
fn partial_existing_spec_creates_new() {
    for missing in 0..4 {
        let mut a = full_args();
        match missing {
            0 => a.tunnel_name = None,
            1 => a.host_token = None,
            2 => a.tunnel_id = None,
            _ => a.cluster = None,
        }
        let e = a.into_existing();
        assert!(e.is_none());
        let mut r = registry(true);
        let t = r.resolve(e, false).unwrap();
        assert_eq!(t.tunnel_id, "tunnel-7");
        assert_eq!(t.tunnel_name, "dev-box");
        assert_eq!(t.cluster, "usw2");
        assert_eq!(t.host_token, "tok");
        assert_eq!(r.remote.len(), 1);
        assert_eq!(r.next_serial, 8);
    }
}

#[test]
fn random_name_when_unattended() {
    let mut r = registry(true);
    r.next_serial = 120;
    let t = r.resolve(None, true).unwrap();
    assert_eq!(t.tunnel_name, "dev-box-120");
    assert_eq!(t.tunnel_id, "tunnel-120");
}

#[test]
fn resolve_reuses_association() {
    let mut r = registry(true);
    let first = r.resolve(None, false).unwrap();
    let second = r.resolve(None, false).unwrap();
    assert_eq!(first.tunnel_id, second.tunnel_id);
    assert_eq!(r.remote.len(), 1);
}

#[test]
fn resolve_without_credential_is_unauthorized() {
    let mut r = registry(false);
    assert_eq!(r.resolve(None, false).unwrap_err(), RegistryError::Unauthorized);
    assert!(r.remote.is_empty());
}

#[test]
fn resolve_name_taken_is_conflict() {
    let mut other = registry(true);
    other.resolve(None, false).unwrap();
    other.association = None;
    assert_eq!(other.resolve(None, false).unwrap_err(), RegistryError::Conflict);
    assert_eq!(other.remote.len(), 1);
    let t = other.resolve(None, true).unwrap();
    assert_eq!(t.tunnel_name, "dev-box-8");
}

#[test]
fn rename_then_resolve_reports_new_name() {
    let mut r = registry(true);
    let t = r.resolve(None, false).unwrap();
    assert_eq!(t.tunnel_name, "dev-box");
    let code = rename(&mut r, &TunnelRenameArgs { name: "laptop-2".to_string() }).unwrap();
    assert_eq!(code, 0);
    let again = r.resolve(None, false).unwrap();
    assert_eq!(again.tunnel_name, "laptop-2");
    let existing = ExistingTunnel {
        tunnel_id: t.tunnel_id.clone(),
        tunnel_name: "dev-box".to_string(),
        host_token: t.host_token.clone(),
        cluster: t.cluster.clone(),
    };
    let adopted = r.resolve(Some(existing), false).unwrap();
    assert_eq!(adopted.tunnel_name, "laptop-2");
}

#[test]
fn rename_without_tunnel_is_not_found() {
    let mut r = registry(true);
    assert_eq!(
        rename(&mut r, &TunnelRenameArgs { name: "x".to_string() }).unwrap_err(),
        RegistryError::NotFound
    );
}

#[test]
fn unregister_twice_succeeds() {
    let mut r = registry(true);
    r.resolve(None, false).unwrap();
    assert_eq!(unregister(&mut r), 0);
    assert!(r.association.is_none());
    assert!(r.remote.is_empty());
    assert_eq!(unregister(&mut r), 0);
    assert!(r.association.is_none());
    assert!(r.remote.is_empty());
}

#[test]
fn user_show_exit_codes() {
    assert_eq!(user(&TunnelUserSubCommands::Show, true), 0);
    assert_eq!(user(&TunnelUserSubCommands::Show, false), 1);
    assert_eq!(user(&TunnelUserSubCommands::Logout, false), 0);
}
