use compress_dispatch::error::{copy_outcome, ErrorDetail, ErrorKind};

#[test]
fn failure_holds_kind_and_message() {
    let e = ErrorDetail::new(ErrorKind::UnknownAlgorithm, "Unknown algorithm 'lz'".to_string());
    assert_eq!(e.kind, ErrorKind::UnknownAlgorithm);
    assert_eq!(e.message, "Unknown algorithm 'lz'");
}

#[test]
fn copy_of_a_failure_is_equal_to_it() {
    let e = ErrorDetail::new(ErrorKind::BackendExitFailure, "zstd exited".to_string());
    assert_eq!(e.clone(), e);
    assert_ne!(e.clone(), ErrorDetail::new(ErrorKind::BackendNotFound, "zstd exited".to_string()));
    assert_ne!(e.clone(), ErrorDetail::new(ErrorKind::BackendExitFailure, "other".to_string()));
}

#[test]
fn copy_of_an_outcome_is_equal_to_it() {
    let ok: Result<(), ErrorDetail> = Ok(());
    assert_eq!(copy_outcome(&ok), ok);
    let failed: Result<(), ErrorDetail> =
        Err(ErrorDetail::new(ErrorKind::PackingFailed, "tar failed".to_string()));
    assert_eq!(copy_outcome(&failed), failed);
}
