use picotin::{
    ContainerConfig, CpuLimit, Error, Lifecycle, LifecycleAction, LifecycleEvent, LifecycleStage,
    MemLimit, MkdirOutcome,
};

fn config(cpu: Option<f32>, mem: Option<u64>, command: &str) -> ContainerConfig {
    ContainerConfig {
        root: None,
        command: Some(command.to_string()),
        cpu_mul_bits: cpu.map(f32::to_bits),
        mem_mib: mem,
        unshare_net: true,
    }
}

#[test]
fn lifecycle_happy_path_with_caps() {
    let mut m = Lifecycle::start(config(Some(0.5), Some(64), "/bin/true"));

    match m.current_action() {
        LifecycleAction::CreateRuntimeRoot { path } => assert_eq!(path, "/var/run/picotin"),
        _ => panic!("expected the runtime root creation first"),
    }
    m.on_event(LifecycleEvent::Mkdir(MkdirOutcome::AlreadyExists));

    let dir = match m.current_action() {
        LifecycleAction::CreateContainerDir { path } => path,
        _ => panic!("expected the container directory allocation"),
    };
    let id = dir.strip_prefix("/var/run/picotin/").expect("directory under the runtime root");
    assert_eq!(id.len(), 8);
    assert!(id.chars().all(|c| c.is_ascii_hexdigit() && !c.is_ascii_uppercase()));
    m.on_event(LifecycleEvent::Mkdir(MkdirOutcome::Created));

    match m.current_action() {
        LifecycleAction::CreateCgroup { name, cpu, mem } => {
            assert_eq!(name, format!("picotin-{}", id));
            assert_eq!(cpu, Some(CpuLimit { period_us: 100000, quota_us: 50000 }));
            assert_eq!(mem, Some(MemLimit { bytes: 67108864, swappiness: 0 }));
        }
        _ => panic!("expected the cgroup creation"),
    }
    m.on_event(LifecycleEvent::Succeeded);

    match m.current_action() {
        LifecycleAction::SpawnChild { command, pid_file, cgroup_name } => {
            assert_eq!(command, "/bin/true");
            assert_eq!(pid_file, format!("{}/init_pid", dir));
            assert_eq!(cgroup_name, format!("picotin-{}", id));
        }
        _ => panic!("expected the spawn"),
    }
    m.on_event(LifecycleEvent::SpawnedAndHooked(4321));

    assert!(matches!(m.current_action(), LifecycleAction::WaitChild));
    m.on_event(LifecycleEvent::Exited(0));

    match m.current_action() {
        LifecycleAction::DeleteCgroup { name } => assert_eq!(name, format!("picotin-{}", id)),
        _ => panic!("expected the cgroup teardown"),
    }
    m.on_event(LifecycleEvent::Succeeded);

    match m.current_action() {
        LifecycleAction::RemoveDir { path } => assert_eq!(path, dir),
        _ => panic!("expected the directory teardown"),
    }
    m.on_event(LifecycleEvent::Succeeded);

    assert_eq!(m.stage, LifecycleStage::Finished);
    assert!(!m.dir_live);
    assert!(!m.cgroup_live);
    assert!(matches!(m.current_action(), LifecycleAction::Finish { result: Ok(0) }));
}

#[test]
fn lifecycle_without_caps_mirrors_nonzero_exit() {
    let mut m = Lifecycle::start(config(None, None, "/bin/false"));
    m.on_event(LifecycleEvent::Mkdir(MkdirOutcome::Created));
    m.on_event(LifecycleEvent::Mkdir(MkdirOutcome::Created));
    match m.current_action() {
        LifecycleAction::CreateCgroup { cpu, mem, .. } => {
            assert_eq!(cpu, None);
            assert_eq!(mem, None);
        }
        _ => panic!("expected the cgroup creation"),
    }
    m.on_event(LifecycleEvent::Succeeded);
    m.on_event(LifecycleEvent::SpawnedAndHooked(99));
    m.on_event(LifecycleEvent::Exited(1));
    m.on_event(LifecycleEvent::Succeeded);
    m.on_event(LifecycleEvent::Succeeded);
    assert!(matches!(m.current_action(), LifecycleAction::Finish { result: Ok(1) }));
}

#[test]
fn lifecycle_spawn_failure_unwinds_cgroup_then_directory() {
    let mut m = Lifecycle::start(config(None, None, "/does/not/exist"));
    m.on_event(LifecycleEvent::Mkdir(MkdirOutcome::AlreadyExists));
    m.on_event(LifecycleEvent::Mkdir(MkdirOutcome::Created));
    m.on_event(LifecycleEvent::Succeeded);
    assert!(matches!(m.current_action(), LifecycleAction::SpawnChild { .. }));

    m.on_event(LifecycleEvent::Failed);
    assert!(matches!(m.current_action(), LifecycleAction::DeleteCgroup { .. }));
    m.on_event(LifecycleEvent::Succeeded);
    assert!(matches!(m.current_action(), LifecycleAction::RemoveDir { .. }));
    m.on_event(LifecycleEvent::Succeeded);

    assert!(!m.dir_live);
    assert!(!m.cgroup_live);
    assert!(matches!(
        m.current_action(),
        LifecycleAction::Finish { result: Err(Error::SpawnFailure) }
    ));
}

#[test]
fn lifecycle_retries_allocation_on_collision() {
    let mut m = Lifecycle::start(config(None, None, "/bin/true"));
    m.on_event(LifecycleEvent::Mkdir(MkdirOutcome::Created));
    assert!(matches!(m.current_action(), LifecycleAction::CreateContainerDir { .. }));
    m.on_event(LifecycleEvent::Mkdir(MkdirOutcome::AlreadyExists));
    assert_eq!(m.stage, LifecycleStage::Allocate);
    match m.current_action() {
        LifecycleAction::CreateContainerDir { path } => {
            assert!(path.starts_with("/var/run/picotin/"));
        }
        _ => panic!("expected another allocation attempt"),
    }
}

#[test]
fn lifecycle_wait_failure_still_tears_down() {
    let mut m = Lifecycle::start(config(None, None, "/bin/true"));
    m.on_event(LifecycleEvent::Mkdir(MkdirOutcome::AlreadyExists));
    m.on_event(LifecycleEvent::Mkdir(MkdirOutcome::Created));
    m.on_event(LifecycleEvent::Succeeded);
    m.on_event(LifecycleEvent::SpawnedAndHooked(77));
    assert!(matches!(m.current_action(), LifecycleAction::WaitChild));
    m.on_event(LifecycleEvent::Failed);
    assert!(matches!(m.current_action(), LifecycleAction::DeleteCgroup { .. }));
    m.on_event(LifecycleEvent::Succeeded);
    assert!(matches!(m.current_action(), LifecycleAction::RemoveDir { .. }));
    m.on_event(LifecycleEvent::Succeeded);
    assert!(matches!(
        m.current_action(),
        LifecycleAction::Finish { result: Err(Error::WaitFailure) }
    ));
}

#[test]
fn lifecycle_rejects_bad_caps_after_allocation() {
    let mut m = Lifecycle::start(ContainerConfig {
        root: None,
        command: None,
        cpu_mul_bits: Some(f32::NAN.to_bits()),
        mem_mib: None,
        unshare_net: true,
    });
    m.on_event(LifecycleEvent::Mkdir(MkdirOutcome::Created));
    m.on_event(LifecycleEvent::Mkdir(MkdirOutcome::Created));
    // The caps cannot be translated: no cgroup is created, the directory is
    // removed, and the failure is reported as invalid input.
    assert!(matches!(m.current_action(), LifecycleAction::RemoveDir { .. }));
    m.on_event(LifecycleEvent::Succeeded);
    assert!(matches!(
        m.current_action(),
        LifecycleAction::Finish { result: Err(Error::InvalidInput) }
    ));
}

#[test]
fn lifecycle_root_failure_reports_io_error() {
    let mut m = Lifecycle::start(config(None, None, "/bin/true"));
    m.on_event(LifecycleEvent::Mkdir(MkdirOutcome::OtherError));
    assert_eq!(m.stage, LifecycleStage::Finished);
    assert!(matches!(
        m.current_action(),
        LifecycleAction::Finish { result: Err(Error::IOFailure) }
    ));
}

#[test]
fn lifecycle_canonicalizes_configured_root() {
    let mut m = Lifecycle::start(ContainerConfig {
        root: Some("/tmp/empty".to_string()),
        command: None,
        cpu_mul_bits: None,
        mem_mib: None,
        unshare_net: false,
    });
    m.on_event(LifecycleEvent::Mkdir(MkdirOutcome::Created));
    m.on_event(LifecycleEvent::Mkdir(MkdirOutcome::Created));
    match m.current_action() {
        LifecycleAction::CanonicalizeRoot { path } => assert_eq!(path, "/tmp/empty"),
        _ => panic!("expected root canonicalization before the cgroup"),
    }
    m.on_event(LifecycleEvent::CanonPath("/tmp/empty".to_string()));
    assert_eq!(m.stage, LifecycleStage::CreateCgroup);
    assert_eq!(m.canon_root.as_deref(), Some("/tmp/empty"));
    // With no command configured, the POSIX shell is the default.
    m.on_event(LifecycleEvent::Succeeded);
    match m.current_action() {
        LifecycleAction::SpawnChild { command, .. } => assert_eq!(command, "/bin/bash"),
        _ => panic!("expected the spawn"),
    }
}
