use vstd::prelude::*;

verus! {

/// The engine's error taxonomy. Every fallible operation of the library and
/// of the shell around it reports one of these.
#[derive(Clone, Copy, Debug, PartialEq, Eq, Structural)]
pub enum Error {
    /// A malformed container name (contains `/`) or bad numeric
    /// configuration (a non-finite or negative CPU multiplier, or a limit
    /// too large for the kernel's integer types).
    InvalidInput,
    /// A filesystem operation against the runtime directory or
    /// `/proc/<pid>/ns/net` failed.
    IOFailure,
    /// A referenced container's directory or its `init_pid` file is missing.
    NotFound,
    /// An `init_pid` file is present but is not a decimal integer.
    Malformed,
    /// The kernel rejected an unshare, setns, cgroup write, or netlink call.
    KernelReject,
    /// The child could not be started, or the pre-unfreeze hook failed.
    SpawnFailure,
    /// The child's exit status could not be collected.
    WaitFailure,
}

impl Error {
    /// A short human-readable description of the error.
    pub fn message(&self) -> (r: &'static str)
        ensures
            r@.len() > 0,
    {
        proof {
            reveal_strlit("invalid name or configuration");
            reveal_strlit("filesystem operation failed");
            reveal_strlit("container or init_pid not found");
            reveal_strlit("init_pid is not a decimal integer");
            reveal_strlit("kernel rejected the operation");
            reveal_strlit("failed to spawn the child");
            reveal_strlit("failed to collect the child's exit status");
        }
        match self {
            Error::InvalidInput => "invalid name or configuration",
            Error::IOFailure => "filesystem operation failed",
            Error::NotFound => "container or init_pid not found",
            Error::Malformed => "init_pid is not a decimal integer",
            Error::KernelReject => "kernel rejected the operation",
            Error::SpawnFailure => "failed to spawn the child",
            Error::WaitFailure => "failed to collect the child's exit status",
        }
    }
}

} // verus!
