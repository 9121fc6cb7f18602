use picotin::Error;

#[test]
fn every_error_has_a_message() {
    let all = [
        Error::InvalidInput,
        Error::IOFailure,
        Error::NotFound,
        Error::Malformed,
        Error::KernelReject,
        Error::SpawnFailure,
        Error::WaitFailure,
    ];
    for e in all {
        assert!(!e.message().is_empty());
    }
    assert_eq!(Error::NotFound.message(), "container or init_pid not found");
}
