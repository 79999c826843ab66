use compress_dispatch::error::{ErrorDetail, ErrorKind};
use compress_dispatch::packer::{pack, tar_job, TarOutcome};
use compress_dispatch::process::ExitReport;

#[test]
fn directory_is_packed_beside_itself() {
    let job = pack("/tmp/folder", true).unwrap();
    assert_eq!(job.archive_path, "/tmp/.tmp_folder.tar");
    assert_eq!(job.invocation.program, "tar");
    assert_eq!(job.invocation.args, vec!["-cf", "/tmp/.tmp_folder.tar", "-C", "/tmp", "folder"]);
}

#[test]
fn trailing_separator_does_not_change_the_archive() {
    let job = pack("/data/projects/site/", true).unwrap();
    assert_eq!(job.archive_path, "/data/projects/.tmp_site.tar");
    assert_eq!(
        job.invocation.args,
        vec!["-cf", "/data/projects/.tmp_site.tar", "-C", "/data/projects", "site"]
    );
}

#[test]
fn relative_directory_is_packed_in_the_current_directory() {
    let job = pack("folder", true).unwrap();
    assert_eq!(job.archive_path, ".tmp_folder.tar");
    assert_eq!(job.invocation.args, vec!["-cf", ".tmp_folder.tar", "-C", "", "folder"]);
}

#[test]
fn missing_path_is_not_packed() {
    assert_eq!(
        pack("/tmp/folder", false),
        Err(ErrorDetail::new(
            ErrorKind::PathNotFound,
            "Input path does not exist: /tmp/folder".to_string()
        ))
    );
}

#[test]
fn root_has_no_parent() {
    assert_eq!(
        pack("/", true),
        Err(ErrorDetail::new(
            ErrorKind::InvalidInput,
            "Could not determine parent directory".to_string()
        ))
    );
}

#[test]
fn path_that_ends_in_dots_has_no_file_name() {
    assert_eq!(
        pack("/tmp/..", true),
        Err(ErrorDetail::new(ErrorKind::InvalidInput, "Could not determine file name".to_string()))
    );
}

#[test]
fn tar_job_holds_its_command() {
    let job = tar_job("/a/.tmp_b.tar".to_string(), "/a".to_string(), "b".to_string());
    assert_eq!(job.archive_path, "/a/.tmp_b.tar");
    assert_eq!(job.invocation.program, "tar");
    assert_eq!(job.invocation.args, vec!["-cf", "/a/.tmp_b.tar", "-C", "/a", "b"]);
}

#[test]
fn successful_run_yields_the_archive() {
    let job = pack("/tmp/folder", true).unwrap();
    let outcome = TarOutcome::Exited(ExitReport { success: true, code: Some(0) });
    assert_eq!(job.conclude(outcome), Ok("/tmp/.tmp_folder.tar".to_string()));
}

#[test]
fn failed_run_reports_the_exit_code() {
    let job = pack("/tmp/folder", true).unwrap();
    let outcome = TarOutcome::Exited(ExitReport { success: false, code: Some(2) });
    assert_eq!(
        job.conclude(outcome),
        Err(ErrorDetail::new(
            ErrorKind::BackendExitFailure,
            "tar command failed with status: Some(2)".to_string()
        ))
    );
    let job = pack("/tmp/folder", true).unwrap();
    let outcome = TarOutcome::Exited(ExitReport { success: false, code: None });
    assert_eq!(
        job.conclude(outcome),
        Err(ErrorDetail::new(
            ErrorKind::BackendExitFailure,
            "tar command failed with status: None".to_string()
        ))
    );
}

#[test]
fn tar_that_does_not_start_is_reported() {
    let job = pack("/tmp/folder", true).unwrap();
    let outcome = TarOutcome::StartFailed("No such file or directory (os error 2)".to_string());
    assert_eq!(
        job.conclude(outcome),
        Err(ErrorDetail::new(
            ErrorKind::BackendInvocationFailed,
            "Failed to run tar command: No such file or directory (os error 2)".to_string()
        ))
    );
}
