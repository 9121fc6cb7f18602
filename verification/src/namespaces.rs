use vstd::prelude::*;

use crate::config::ContainerConfig;
use crate::errors::Error;

verus! {

/// One kind of kernel namespace the engine can place a child into.
#[derive(Clone, Copy, Debug, PartialEq, Eq, Structural)]
pub enum NamespaceKind {
    User,
    Pid,
    Ipc,
    Mount,
    Net,
}

/// One range of a UID or GID mapping for a user namespace.
#[derive(Clone, Copy, Debug, PartialEq, Eq, Structural)]
pub struct IdMapRange {
    /// First ID inside the namespace.
    pub inside: u32,
    /// First ID outside the namespace.
    pub outside: u32,
    /// Number of IDs mapped.
    pub count: u32,
}

/// The identity mapping applied to every container: IDs 0 through 65535 map
/// to themselves.
pub open spec fn identity_map() -> IdMapRange {
    IdMapRange { inside: 0, outside: 0, count: 65536 }
}

/// The kernel-level isolation plan of a container: which namespaces to
/// unshare and which directory, if any, to confine the child to. Pure data;
/// no namespace is created here.
pub struct ContainerNamespaces {
    /// Directory the child is confined to as its root, if any, as
    /// configured; the shell canonicalizes it when applying the plan.
    pub root: Option<String>,
    /// Whether the child gets a private network namespace.
    pub unshare_net: bool,
}

impl ContainerNamespaces {
    /// Builds the namespace plan for a configuration. User, PID, IPC and
    /// mount namespaces are always unshared; the network namespace exactly
    /// when the configuration requests network isolation.
    pub fn new(config: &ContainerConfig) -> (r: Result<ContainerNamespaces, Error>)
        ensures
            r is Ok,
            match r {
                Ok(ns) => {
                    &&& match (ns.root, config.root) {
                        (None, None) => true,
                        (Some(a), Some(b)) => a@ == b@,
                        _ => false,
                    }
                    &&& ns.unshare_net == config.unshare_net
                },
                Err(_) => false,
            },
    {
        let root = match &config.root {
            Some(p) => Some(p.clone()),
            None => None,
        };
        Ok(ContainerNamespaces { root, unshare_net: config.unshare_net })
    }

    /// The set of namespaces this plan unshares, in the order they are
    /// handed to the kernel: user, PID, IPC and mount always, then net
    /// exactly when network isolation is requested.
    pub fn namespace_set(&self) -> (r: Vec<NamespaceKind>)
        ensures
            self.unshare_net ==> r@ == seq![
                NamespaceKind::User,
                NamespaceKind::Pid,
                NamespaceKind::Ipc,
                NamespaceKind::Mount,
                NamespaceKind::Net,
            ],
            !self.unshare_net ==> r@ == seq![
                NamespaceKind::User,
                NamespaceKind::Pid,
                NamespaceKind::Ipc,
                NamespaceKind::Mount,
            ],
            r@.contains(NamespaceKind::Net) <==> self.unshare_net,
    {
        let mut r: Vec<NamespaceKind> = Vec::new();
        r.push(NamespaceKind::User);
        r.push(NamespaceKind::Pid);
        r.push(NamespaceKind::Ipc);
        r.push(NamespaceKind::Mount);
        if self.unshare_net {
            r.push(NamespaceKind::Net);
            proof {
                assert(r@ =~= seq![
                    NamespaceKind::User,
                    NamespaceKind::Pid,
                    NamespaceKind::Ipc,
                    NamespaceKind::Mount,
                    NamespaceKind::Net,
                ]);
                assert(r@[4] == NamespaceKind::Net);
            }
        } else {
            proof {
                assert(r@ =~= seq![
                    NamespaceKind::User,
                    NamespaceKind::Pid,
                    NamespaceKind::Ipc,
                    NamespaceKind::Mount,
                ]);
                assert(forall|i: int| 0 <= i < r@.len() ==> r@[i] != NamespaceKind::Net);
            }
        }
        r
    }

    /// The UID mapping of the child's user namespace: the identity map.
    pub fn uid_map(&self) -> (r: IdMapRange)
        ensures
            r == identity_map(),
    {
        IdMapRange { inside: 0, outside: 0, count: 65536 }
    }

    /// The GID mapping of the child's user namespace: the identity map.
    pub fn gid_map(&self) -> (r: IdMapRange)
        ensures
            r == identity_map(),
    {
        IdMapRange { inside: 0, outside: 0, count: 65536 }
    }
}

} // verus!
