use vstd::prelude::*;
use vstd::string::StringExecFns;

verus! {

/// The immutable configuration of a container, fixed at construction.
///
/// The CPU multiplier is carried as the bit pattern of the 32-bit IEEE-754
/// floating-point number the user supplied; the library derives the kernel's
/// integer CPU quota from those bits exactly, so no floating-point
/// arithmetic is needed anywhere in the engine's logic.
pub struct ContainerConfig {
    /// Directory to confine the child to as its root, if any.
    pub root: Option<String>,
    /// Program to execute; a POSIX shell when absent.
    pub command: Option<String>,
    /// Bit pattern of the CPU multiplier, if a CPU cap was requested.
    pub cpu_mul_bits: Option<u32>,
    /// Memory hard limit in mebibytes, if a memory cap was requested.
    pub mem_mib: Option<u64>,
    /// Whether the child gets a private network namespace.
    pub unshare_net: bool,
}

/// The program run when no command is configured.
pub open spec fn default_shell() -> Seq<char> {
    "/bin/bash"@
}

/// The command a container executes: the configured program, or the POSIX
/// shell default.
pub fn command_or_default(config: &ContainerConfig) -> (r: String)
    ensures
        match config.command {
            Some(c) => r@ == c@,
            None => r@ == default_shell(),
        },
{
    match &config.command {
        Some(c) => c.clone(),
        None => String::from_str("/bin/bash"),
    }
}

} // verus!
