use vstd::prelude::*;
use vstd::string::*;
use crate::args::{Cli, CodeServerArgs, ExistingTunnelArgs, TunnelServeArgs, TunnelServiceSubCommands};
use crate::text::strs;

verus! {

#[derive(Clone, Copy, Debug, PartialEq, Eq, Structural)]
pub enum ServiceError {
    /// The process may not manage services.
    PermissionDenied,
    /// No service manager is available on this platform.
    PlatformUnsupported,
}

/// The service definition that makes the supervisor (re)start the executable.
#[derive(Clone, Debug)]
pub struct ServiceRegistration {
    pub executable: String,
    pub args: Vec<String>,
}

/// The platform's service supervisor, with at most one registration for this tool.
pub struct ServiceManager {
    /// A service manager exists on this platform.
    pub supported: bool,
    /// The process runs with the privilege to change registrations.
    pub privileged: bool,
    pub registration: Option<ServiceRegistration>,
}

impl ServiceManager {
    /// The error a change of registration meets, if any.
    pub open spec fn change_error(self) -> Option<ServiceError> {
        if !self.supported {
            Some(ServiceError::PlatformUnsupported)
        } else if !self.privileged {
            Some(ServiceError::PermissionDenied)
        } else {
            None
        }
    }

    /// Installs the service, replacing any earlier registration.
    pub fn register(&mut self, executable: String, args: Vec<String>) -> (r: Result<(), ServiceError>)
        ensures
            match old(self).change_error() {
                Some(e) => r == Err::<(), ServiceError>(e) && final(self).registration == old(self).registration,
                None => r is Ok && final(self).registration == Some(ServiceRegistration { executable, args }),
            },
            final(self).supported == old(self).supported,
            final(self).privileged == old(self).privileged,
    {
        if !self.supported {
            return Err(ServiceError::PlatformUnsupported);
        }
        if !self.privileged {
            return Err(ServiceError::PermissionDenied);
        }
        self.registration = Some(ServiceRegistration { executable, args });
        Ok(())
    }

    /// Stops and removes the service; with none registered there is nothing to do.
    pub fn unregister(&mut self) -> (r: Result<(), ServiceError>)
        ensures
            if old(self).registration is None {
                r is Ok && final(self).registration is None
            } else {
                match old(self).change_error() {
                    Some(e) => r == Err::<(), ServiceError>(e) && final(self).registration == old(self).registration,
                    None => r is Ok && final(self).registration is None,
                }
            },
            final(self).supported == old(self).supported,
            final(self).privileged == old(self).privileged,
    {
        if self.registration.is_none() {
            return Ok(());
        }
        if !self.supported {
            return Err(ServiceError::PlatformUnsupported);
        }
        if !self.privileged {
            return Err(ServiceError::PermissionDenied);
        }
        self.registration = None;
        Ok(())
    }
}

/// Why a `tunnel service` command failed.
#[derive(Clone, Copy, Debug, PartialEq, Eq, Structural)]
pub enum ServiceCommandError {
    /// No credential is stored; log in first.
    Unauthenticated,
    /// The license terms have not been accepted.
    ConsentRequired,
    Service(ServiceError),
}

/// What is left to do once `service` returns.
#[derive(Clone, Copy, Debug, PartialEq, Eq, Structural)]
pub enum ServiceOutcome {
    /// The command is done; exit with this code.
    Exit(i32),
    /// Hand control to the supervisor, which runs the serve loop as a service.
    RunService,
}

/// The arguments the installed service is started with.
pub open spec fn service_arguments(data_dir: Seq<char>) -> Seq<Seq<char>> {
    seq!["--cli-data-dir"@, data_dir, "tunnel"@, "service"@, "internal-run"@]
}

fn service_arg_vector(data_dir: &String) -> (r: Vec<String>)
    ensures
        strs(r@) == service_arguments(data_dir@),
{
    let mut v: Vec<String> = Vec::new();
    v.push(String::from_str("--cli-data-dir"));
    v.push(data_dir.clone());
    v.push(String::from_str("tunnel"));
    v.push(String::from_str("service"));
    v.push(String::from_str("internal-run"));
    assert(strs(v@) =~= service_arguments(data_dir@));
    v
}

/// `tunnel service install | uninstall | internal-run`.
///
/// Install requires a stored credential and accepted license terms, both checked
/// before anything is registered; it then registers `executable` to run the
/// service from `data_dir`.
pub fn service(
    manager: &mut ServiceManager,
    service_args: TunnelServiceSubCommands,
    logged_in: bool,
    consent: bool,
    executable: String,
    data_dir: &String,
) -> (r: Result<ServiceOutcome, ServiceCommandError>)
    ensures
        final(manager).supported == old(manager).supported,
        final(manager).privileged == old(manager).privileged,
        match service_args {
            TunnelServiceSubCommands::Install => if !logged_in {
                r == Err::<ServiceOutcome, ServiceCommandError>(ServiceCommandError::Unauthenticated)
                    && final(manager).registration == old(manager).registration
            } else if !consent {
                r == Err::<ServiceOutcome, ServiceCommandError>(ServiceCommandError::ConsentRequired)
                    && final(manager).registration == old(manager).registration
            } else {
                match old(manager).change_error() {
                    Some(e) => r == Err::<ServiceOutcome, ServiceCommandError>(ServiceCommandError::Service(e))
                        && final(manager).registration == old(manager).registration,
                    None => {
                        &&& r == Ok::<ServiceOutcome, ServiceCommandError>(ServiceOutcome::Exit(0))
                        &&& final(manager).registration matches Some(reg)
                        &&& reg.executable == executable
                        &&& strs(reg.args@) == service_arguments(data_dir@)
                    },
                }
            },
            TunnelServiceSubCommands::Uninstall => if old(manager).registration is None {
                r == Ok::<ServiceOutcome, ServiceCommandError>(ServiceOutcome::Exit(0))
                    && final(manager).registration is None
            } else {
                match old(manager).change_error() {
                    Some(e) => r == Err::<ServiceOutcome, ServiceCommandError>(ServiceCommandError::Service(e))
                        && final(manager).registration == old(manager).registration,
                    None => r == Ok::<ServiceOutcome, ServiceCommandError>(ServiceOutcome::Exit(0))
                        && final(manager).registration is None,
                }
            },
            TunnelServiceSubCommands::InternalRun => r == Ok::<ServiceOutcome, ServiceCommandError>(
                ServiceOutcome::RunService,
            ) && final(manager).registration == old(manager).registration,
        },
{
    match service_args {
        TunnelServiceSubCommands::Install => {
            if !logged_in {
                return Err(ServiceCommandError::Unauthenticated);
            }
            if !consent {
                return Err(ServiceCommandError::ConsentRequired);
            }
            let args = service_arg_vector(data_dir);
            match manager.register(executable, args) {
                Ok(()) => Ok(ServiceOutcome::Exit(0)),
                Err(e) => Err(ServiceCommandError::Service(e)),
            }
        },
        TunnelServiceSubCommands::Uninstall => match manager.unregister() {
            Ok(()) => Ok(ServiceOutcome::Exit(0)),
            Err(e) => Err(ServiceCommandError::Service(e)),
        },
        TunnelServiceSubCommands::InternalRun => Ok(ServiceOutcome::RunService),
    }
}

/// Runs the serve loop for the service supervisor, from the command line the
/// service was started with.
pub struct TunnelServiceContainer {
    pub args: Cli,
}

impl TunnelServiceContainer {
    pub fn new(args: Cli) -> (r: Self)
        ensures
            r.args == args,
    {
        Self { args }
    }

    /// The serve arguments of an unattended run: no existing tunnel, and a
    /// generated name so that nothing is asked.
    pub fn serve_args(&self) -> (r: TunnelServeArgs)
        ensures
            r.random_name,
            r.tunnel.tunnel_name is None,
            r.tunnel.host_token is None,
            r.tunnel.tunnel_id is None,
            r.tunnel.cluster is None,
    {
        TunnelServeArgs {
            tunnel: ExistingTunnelArgs {
                tunnel_name: None,
                host_token: None,
                tunnel_id: None,
                cluster: None,
            },
            random_name: true,
        }
    }

    /// The editor-server settings taken from the service's command line.
    pub fn code_server_args(&self) -> (r: CodeServerArgs)
        ensures
            r == CodeServerArgs::spec_from_cli(self.args),
    {
        CodeServerArgs::from_cli(&self.args)
    }
}

} // verus!
