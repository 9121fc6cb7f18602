//! A minimal Linux container engine: namespace-isolated child processes,
//! cgroup CPU/memory caps, an on-disk runtime registry, and point-to-point
//! veth links between live containers.
//!
//! This crate holds the engine's verified logic: identifier and PID text
//! codecs, registry path construction, the cgroup limit mapping, the
//! namespace plan, and the decision machines that sequence the side-effecting
//! steps of container creation and linking. The process, filesystem, cgroup
//! and netlink calls themselves are issued by a thin unverified shell around
//! this library.

pub mod cgroup;
pub mod config;
pub mod errors;
pub mod ident;
pub mod lifecycle;
pub mod link;
pub mod namespaces;
pub mod registry;

pub use cgroup::{
    cgroup_name, cpu_quota_from_bits, mem_limit_bytes, CgroupSpec, CpuLimit, MemLimit,
    CPU_PERIOD_US,
};
pub use config::{command_or_default, ContainerConfig};
pub use errors::Error;
pub use lifecycle::{Lifecycle, LifecycleAction, LifecycleEvent, LifecycleStage};
pub use link::{
    check_link_names, lemma_assign_in_namespace_balanced, lemma_netns_restored, veth_ifname,
    Ipv4Cidr, LinkAction, LinkEvent, LinkJob,
    LinkStage,
};
pub use namespaces::{ContainerNamespaces, IdMapRange, NamespaceKind};
pub use ident::{check_name, format_id, hex8, hex_char, random_id, valid_name};
pub use registry::{
    alloc_step, container_dir, ensure_root_result, format_pid, init_pid_path, pair_contents,
    paired_with_path, parse_pid, read_pid_result, runtime_root_path, AllocDecision,
    FileReadOutcome, MkdirOutcome,
};
