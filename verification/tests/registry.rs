use picotin::{
    alloc_step, container_dir, ensure_root_result, init_pid_path, pair_contents,
    paired_with_path, read_pid_result, runtime_root_path, AllocDecision, Error, FileReadOutcome,
    MkdirOutcome,
};

#[test]
fn registry_paths() {
    assert_eq!(runtime_root_path(), "/var/run/picotin");
    assert_eq!(container_dir("ab12cd34"), "/var/run/picotin/ab12cd34");
    assert_eq!(init_pid_path("ab12cd34"), "/var/run/picotin/ab12cd34/init_pid");
    assert_eq!(paired_with_path("ab12cd34"), "/var/run/picotin/ab12cd34/paired_with");
}

#[test]
fn pair_contents_are_mutual() {
    let (for_lhs, for_rhs) = pair_contents("alpha", "beta");
    assert_eq!(for_lhs, "beta");
    assert_eq!(for_rhs, "alpha");
}

#[test]
fn ensure_root_tolerates_existing_directory() {
    assert_eq!(ensure_root_result(MkdirOutcome::Created), Ok(()));
    assert_eq!(ensure_root_result(MkdirOutcome::AlreadyExists), Ok(()));
    assert_eq!(ensure_root_result(MkdirOutcome::OtherError), Err(Error::IOFailure));
}

#[test]
fn allocation_retries_only_on_collision() {
    assert_eq!(alloc_step(MkdirOutcome::Created), AllocDecision::Accept);
    assert_eq!(alloc_step(MkdirOutcome::AlreadyExists), AllocDecision::Retry);
    assert_eq!(alloc_step(MkdirOutcome::OtherError), AllocDecision::Fail);
}

#[test]
fn read_pid_classifies_outcomes() {
    assert_eq!(read_pid_result(&FileReadOutcome::Content("4321".to_string())), Ok(4321));
    assert_eq!(
        read_pid_result(&FileReadOutcome::Content("not a pid".to_string())),
        Err(Error::Malformed)
    );
    assert_eq!(read_pid_result(&FileReadOutcome::Missing), Err(Error::NotFound));
    assert_eq!(read_pid_result(&FileReadOutcome::OtherError), Err(Error::IOFailure));
}
