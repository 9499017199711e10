use vstd::prelude::*;
use vstd::string::*;
use crate::args::ExistingTunnelArgs;
use crate::text::{decimal, push_decimal};

verus! {

/// A tunnel that makes this machine reachable through the relay.
#[derive(Clone, Debug)]
pub struct Tunnel {
    pub tunnel_id: String,
    pub tunnel_name: String,
    pub cluster: String,
    pub host_token: String,
}

/// A fully specified tunnel that already exists, to be reused as it is.
#[derive(Clone, Debug)]
pub struct ExistingTunnel {
    pub tunnel_id: String,
    pub tunnel_name: String,
    pub host_token: String,
    pub cluster: String,
}

#[derive(Clone, Copy, Debug, PartialEq, Eq, Structural)]
pub enum RegistryError {
    /// No credential is available for the relay.
    Unauthorized,
    /// The desired name is taken by another tunnel.
    Conflict,
    /// No tunnel is associated with this machine.
    NotFound,
}

/// The existing-tunnel details count only when all four are given.
pub open spec fn is_complete(d: ExistingTunnelArgs) -> bool {
    d.tunnel_id is Some && d.tunnel_name is Some && d.cluster is Some && d.host_token is Some
}

impl ExistingTunnelArgs {
    /// The existing tunnel these details describe; `None` unless all four fields
    /// are present.
    pub fn into_existing(self) -> (r: Option<ExistingTunnel>)
        ensures
            r is Some <==> is_complete(self),
            r matches Some(t) ==> Some(t.tunnel_id) == self.tunnel_id
                && Some(t.tunnel_name) == self.tunnel_name
                && Some(t.cluster) == self.cluster
                && Some(t.host_token) == self.host_token,
    {
        match (self.tunnel_id, self.tunnel_name, self.cluster, self.host_token) {
            (Some(tunnel_id), Some(tunnel_name), Some(cluster), Some(host_token)) => Some(
                ExistingTunnel { tunnel_id, tunnel_name, host_token, cluster },
            ),
            _ => None,
        }
    }
}

/// Index of the first tunnel in `s` with the given id.
pub open spec fn first_with_id(s: Seq<Tunnel>, id: Seq<char>) -> Option<int> {
    if exists|i: int| 0 <= i < s.len() && s[i].tunnel_id@ == id
        && forall|j: int| 0 <= j < i ==> s[j].tunnel_id@ != id {
        Some(choose|i: int| 0 <= i < s.len() && s[i].tunnel_id@ == id
            && forall|j: int| 0 <= j < i ==> s[j].tunnel_id@ != id)
    } else {
        None
    }
}

pub open spec fn has_name(s: Seq<Tunnel>, name: Seq<char>) -> bool {
    exists|i: int| 0 <= i < s.len() && s[i].tunnel_name@ == name
}

/// The id the relay gives to the tunnel created with serial `n`.
pub open spec fn serial_id(n: nat) -> Seq<char> {
    "tunnel-"@ + decimal(n)
}

/// The name picked for an unattended machine, from the tunnel's serial.
pub open spec fn generated_name(machine: Seq<char>, n: nat) -> Seq<char> {
    machine + "-"@ + decimal(n)
}

/// The relay's tunnels as this machine sees them, and which of them it uses.
pub struct TunnelRegistry {
    /// The credential for the relay, when logged in.
    pub credential: Option<String>,
    /// The tunnels the relay holds.
    pub remote: Vec<Tunnel>,
    /// Id of the tunnel associated with this machine.
    pub association: Option<String>,
    /// The name of this machine.
    pub machine_name: String,
    /// The cluster new tunnels are created in.
    pub cluster: String,
    /// Serial of the next tunnel to be created.
    pub next_serial: u64,
}

fn find_by_id(v: &Vec<Tunnel>, id: &String) -> (r: Option<usize>)
    ensures
        match r {
            Some(i) => first_with_id(v@, id@) == Some(i as int),
            None => first_with_id(v@, id@) is None,
        },
{
    let mut i: usize = 0;
    while i < v.len()
        invariant
            i <= v@.len(),
            forall|j: int| 0 <= j < i ==> v@[j].tunnel_id@ != id@,
        decreases v@.len() - i,
    {
        if v[i].tunnel_id == *id {
            let ghost k = choose|k: int| 0 <= k < v@.len() && v@[k].tunnel_id@ == id@
                && forall|j: int| 0 <= j < k ==> v@[j].tunnel_id@ != id@;
            assert(k == i) by {
                if k < i { assert(v@[k].tunnel_id@ != id@); }
                if k > i { assert(v@[i as int].tunnel_id@ != id@); }
            }
            return Some(i);
        }
        i = i + 1;
    }
    None
}

fn name_taken(v: &Vec<Tunnel>, name: &String) -> (r: bool)
    ensures
        r == has_name(v@, name@),
{
    let mut i: usize = 0;
    while i < v.len()
        invariant
            i <= v@.len(),
            forall|j: int| 0 <= j < i ==> v@[j].tunnel_name@ != name@,
        decreases v@.len() - i,
    {
        if v[i].tunnel_name == *name {
            return true;
        }
        i = i + 1;
    }
    false
}

fn copy_tunnel(t: &Tunnel) -> (r: Tunnel)
    ensures
        r == *t,
{
    Tunnel {
        tunnel_id: t.tunnel_id.clone(),
        tunnel_name: t.tunnel_name.clone(),
        cluster: t.cluster.clone(),
        host_token: t.host_token.clone(),
    }
}

impl TunnelRegistry {
    /// The tunnel associated with this machine, when the relay still has it.
    pub open spec fn associated(self) -> Option<Tunnel> {
        match self.association {
            Some(id) => match first_with_id(self.remote@, id@) {
                Some(i) => Some(self.remote@[i]),
                None => None,
            },
            None => None,
        }
    }

    /// The relay's tunnels once the associated one is deleted.
    pub open spec fn remote_after_remove(self) -> Seq<Tunnel> {
        match self.association {
            Some(id) => match first_with_id(self.remote@, id@) {
                Some(i) => self.remote@.remove(i),
                None => self.remote@,
            },
            None => self.remote@,
        }
    }

    /// Acquires the tunnel to serve on.
    ///
    /// A complete existing tunnel is adopted and no tunnel is created; its name is
    /// the relay's current one when the relay knows its id. Otherwise a credential
    /// is required, the tunnel already associated with this machine is reused, and
    /// failing that a new one is created: named after the machine, or with a
    /// generated name when `prefer_random_name` is set.
    pub fn resolve(&mut self, existing: Option<ExistingTunnel>, prefer_random_name: bool) -> (r:
        Result<Tunnel, RegistryError>)
        requires
            old(self).next_serial < u64::MAX,
        ensures
            match existing {
                Some(e) => {
                    &&& r matches Ok(t)
                    &&& t.tunnel_id == e.tunnel_id
                    &&& t.cluster == e.cluster
                    &&& t.host_token == e.host_token
                    &&& t.tunnel_name@ == (match first_with_id(old(self).remote@, e.tunnel_id@) {
                        Some(i) => old(self).remote@[i].tunnel_name@,
                        None => e.tunnel_name@,
                    })
                    &&& final(self).remote@ == old(self).remote@
                    &&& final(self).association == Some(e.tunnel_id)
                    &&& final(self).next_serial == old(self).next_serial
                },
                None => if old(self).credential is None {
                    r == Err::<Tunnel, RegistryError>(RegistryError::Unauthorized)
                        && *final(self) == *old(self)
                } else if old(self).associated() is Some {
                    r == Ok::<Tunnel, RegistryError>(old(self).associated().unwrap())
                        && *final(self) == *old(self)
                } else if !prefer_random_name && has_name(old(self).remote@, old(self).machine_name@) {
                    r == Err::<Tunnel, RegistryError>(RegistryError::Conflict)
                        && *final(self) == *old(self)
                } else {
                    &&& r matches Ok(t)
                    &&& t.tunnel_id@ == serial_id(old(self).next_serial as nat)
                    &&& t.tunnel_name@ == (if prefer_random_name {
                        generated_name(old(self).machine_name@, old(self).next_serial as nat)
                    } else {
                        old(self).machine_name@
                    })
                    &&& t.cluster == old(self).cluster
                    &&& t.host_token == old(self).credential.unwrap()
                    &&& final(self).remote@ == old(self).remote@.push(t)
                    &&& final(self).association == Some(t.tunnel_id)
                    &&& final(self).next_serial == old(self).next_serial + 1
                    &&& final(self).credential == old(self).credential
                    &&& final(self).machine_name == old(self).machine_name
                    &&& final(self).cluster == old(self).cluster
                },
            },
            final(self).credential == old(self).credential,
            final(self).machine_name == old(self).machine_name,
            final(self).cluster == old(self).cluster,
    {
        match existing {
            Some(e) => {
                let name = match find_by_id(&self.remote, &e.tunnel_id) {
                    Some(i) => self.remote[i].tunnel_name.clone(),
                    None => e.tunnel_name,
                };
                self.association = Some(e.tunnel_id.clone());
                Ok(Tunnel {
                    tunnel_id: e.tunnel_id,
                    tunnel_name: name,
                    cluster: e.cluster,
                    host_token: e.host_token,
                })
            },
            None => {
                let token = match &self.credential {
                    Some(c) => c.clone(),
                    None => {
                        return Err(RegistryError::Unauthorized);
                    },
                };
                match &self.association {
                    Some(id) => match find_by_id(&self.remote, id) {
                        Some(i) => {
                            return Ok(copy_tunnel(&self.remote[i]));
                        },
                        None => {},
                    },
                    None => {},
                }
                let name = if prefer_random_name {
                    let mut n = self.machine_name.clone();
                    n.append("-");
                    push_decimal(&mut n, self.next_serial);
                    n
                } else {
                    if name_taken(&self.remote, &self.machine_name) {
                        return Err(RegistryError::Conflict);
                    }
                    self.machine_name.clone()
                };
                let mut id = String::from_str("tunnel-");
                push_decimal(&mut id, self.next_serial);
                let t = Tunnel {
                    tunnel_id: id,
                    tunnel_name: name,
                    cluster: self.cluster.clone(),
                    host_token: token,
                };
                self.remote.push(copy_tunnel(&t));
                self.association = Some(t.tunnel_id.clone());
                self.next_serial = self.next_serial + 1;
                Ok(t)
            },
        }
    }

    /// Renames the tunnel associated with this machine at the relay.
    pub fn rename(&mut self, new_name: String) -> (r: Result<(), RegistryError>)
        ensures
            match old(self).association {
                Some(id) => match first_with_id(old(self).remote@, id@) {
                    Some(i) => {
                        &&& r is Ok
                        &&& final(self).remote@ == old(self).remote@.update(i, Tunnel {
                            tunnel_name: new_name,
                            ..old(self).remote@[i]
                        })
                    },
                    None => r == Err::<(), RegistryError>(RegistryError::NotFound)
                        && final(self).remote@ == old(self).remote@,
                },
                None => r == Err::<(), RegistryError>(RegistryError::NotFound)
                    && final(self).remote@ == old(self).remote@,
            },
            final(self).association == old(self).association,
            final(self).credential == old(self).credential,
            final(self).machine_name == old(self).machine_name,
            final(self).cluster == old(self).cluster,
            final(self).next_serial == old(self).next_serial,
    {
        let found = match &self.association {
            Some(id) => find_by_id(&self.remote, id),
            None => None,
        };
        match found {
            Some(i) => {
                let old_t = copy_tunnel(&self.remote[i]);
                let t = Tunnel {
                    tunnel_id: old_t.tunnel_id,
                    tunnel_name: new_name,
                    cluster: old_t.cluster,
                    host_token: old_t.host_token,
                };
                self.remote.set(i, t);
                Ok(())
            },
            None => Err(RegistryError::NotFound),
        }
    }

    /// Deletes the tunnel associated with this machine at the relay, if the relay
    /// still has it, and forgets the association. Nothing associated is no error.
    pub fn remove(&mut self)
        ensures
            final(self).association is None,
            final(self).remote@ == old(self).remote_after_remove(),
            final(self).credential == old(self).credential,
            final(self).machine_name == old(self).machine_name,
            final(self).cluster == old(self).cluster,
            final(self).next_serial == old(self).next_serial,
    {
        let found = match &self.association {
            Some(id) => find_by_id(&self.remote, id),
            None => None,
        };
        match found {
            Some(i) => {
                self.remote.remove(i);
            },
            None => {},
        }
        self.association = None;
    }
}

/// Unregistering twice in a row: the second call finds no association and leaves
/// the relay's tunnels as the first left them, and no association remains.
pub proof fn lemma_remove_twice(first: TunnelRegistry, second: TunnelRegistry)
    requires
        first.association is None,
        second.association is None,
        second.remote@ == first.remote_after_remove(),
    ensures
        second.remote@ == first.remote@,
        second.remote_after_remove() == second.remote@,
        second.association is None,
{
}

/// Exit code of `tunnel unregister`: it always succeeds, whether or not a tunnel
/// was associated.
pub fn unregister(registry: &mut TunnelRegistry) -> (r: i32)
    ensures
        r == 0,
        final(registry).association is None,
        final(registry).remote@ == old(registry).remote_after_remove(),
        final(registry).credential == old(registry).credential,
        final(registry).next_serial == old(registry).next_serial,
{
    registry.remove();
    0
}

/// `tunnel rename`: renames the associated tunnel and exits with zero.
pub fn rename(registry: &mut TunnelRegistry, rename_args: &crate::args::TunnelRenameArgs) -> (r:
    Result<i32, RegistryError>)
    ensures
        match old(registry).association {
            Some(id) => match first_with_id(old(registry).remote@, id@) {
                Some(i) => {
                    &&& r == Ok::<i32, RegistryError>(0)
                    &&& final(registry).remote@ == old(registry).remote@.update(i, Tunnel {
                        tunnel_name: rename_args.name,
                        ..old(registry).remote@[i]
                    })
                },
                None => r == Err::<i32, RegistryError>(RegistryError::NotFound)
                    && final(registry).remote@ == old(registry).remote@,
            },
            None => r == Err::<i32, RegistryError>(RegistryError::NotFound)
                && final(registry).remote@ == old(registry).remote@,
        },
        final(registry).association == old(registry).association,
        final(registry).credential == old(registry).credential,
        final(registry).next_serial == old(registry).next_serial,
{
    match registry.rename(rename_args.name.clone()) {
        Ok(()) => Ok(0),
        Err(e) => Err(e),
    }
}

/// Exit code of `tunnel user login | logout | show`, once the credential work is
/// done: `show` exits with one when no credential is stored, everything else
/// with zero.
pub fn user(user_args: &crate::args::TunnelUserSubCommands, logged_in: bool) -> (r: i32)
    ensures
        r == (if user_args is Show && !logged_in { 1i32 } else { 0i32 }),
{
    match user_args {
        crate::args::TunnelUserSubCommands::Show => if logged_in { 0 } else { 1 },
        _ => 0,
    }
}

} // verus!
