use picotin::{command_or_default, ContainerConfig, ContainerNamespaces, NamespaceKind};

fn config(unshare_net: bool) -> ContainerConfig {
    ContainerConfig {
        root: None,
        command: None,
        cpu_mul_bits: None,
        mem_mib: None,
        unshare_net,
    }
}

#[test]
fn namespace_set_always_isolates_user_pid_ipc_mount() {
    let plan = ContainerNamespaces::new(&config(false)).unwrap();
    assert_eq!(
        plan.namespace_set(),
        vec![
            NamespaceKind::User,
            NamespaceKind::Pid,
            NamespaceKind::Ipc,
            NamespaceKind::Mount,
        ]
    );
}

#[test]
fn namespace_set_adds_net_exactly_when_requested() {
    let plan = ContainerNamespaces::new(&config(true)).unwrap();
    assert_eq!(
        plan.namespace_set(),
        vec![
            NamespaceKind::User,
            NamespaceKind::Pid,
            NamespaceKind::Ipc,
            NamespaceKind::Mount,
            NamespaceKind::Net,
        ]
    );
    let host_net = ContainerNamespaces::new(&config(false)).unwrap();
    assert!(!host_net.namespace_set().contains(&NamespaceKind::Net));
}

#[test]
fn id_maps_are_the_identity_over_65536_ids() {
    let plan = ContainerNamespaces::new(&config(true)).unwrap();
    let uid = plan.uid_map();
    assert_eq!((uid.inside, uid.outside, uid.count), (0, 0, 65536));
    let gid = plan.gid_map();
    assert_eq!((gid.inside, gid.outside, gid.count), (0, 0, 65536));
}

#[test]
fn default_command_is_the_posix_shell() {
    assert_eq!(command_or_default(&config(true)), "/bin/bash");
    let with_command = ContainerConfig {
        root: None,
        command: Some("/bin/true".to_string()),
        cpu_mul_bits: None,
        mem_mib: None,
        unshare_net: true,
    };
    assert_eq!(command_or_default(&with_command), "/bin/true");
}
