use compress_dispatch::adapter::{run, run_at};
use compress_dispatch::backend::Backend;
use compress_dispatch::error::{ErrorDetail, ErrorKind};

fn flags() -> Vec<String> {
    vec!["-mx=9".to_string()]
}

#[test]
fn seven_zip_writes_into_the_output_directory() {
    let job = run_at(
        Backend::SevenZip,
        flags(),
        "/tmp/doc.txt".to_string(),
        "/tmp/out".to_string(),
        true,
        true,
        "20240131_235959",
    )
    .unwrap();
    assert_eq!(job.backend, Backend::SevenZip);
    assert_eq!(job.flags, flags());
    assert_eq!(job.input_path, "/tmp/doc.txt");
    assert_eq!(job.artifact_path, "/tmp/out/20240131_235959_doc.txt.7z");
}

#[test]
fn archive_of_a_directory_loses_its_hiding_prefix() {
    for (backend, expected) in [
        (Backend::Xz, "/tmp/out/20240131_235959_folder.tar.xz"),
        (Backend::SevenZip, "/tmp/out/20240131_235959_folder.tar.7z"),
        (Backend::Zpaq, "/tmp/out/20240131_235959_folder.tar.zpaq"),
        (Backend::Paq8px, "/tmp/out/20240131_235959_folder.tar.paq8px"),
    ] {
        let job = run_at(
            backend,
            Vec::new(),
            "/tmp/.tmp_folder.tar".to_string(),
            "/tmp/out".to_string(),
            true,
            true,
            "20240131_235959",
        )
        .unwrap();
        assert_eq!(job.artifact_path, expected);
    }
}

#[test]
fn adapter_checks_the_input_first() {
    let r = run_at(
        Backend::SevenZip,
        flags(),
        "/tmp/doc.txt".to_string(),
        "/tmp/out".to_string(),
        false,
        false,
        "20240131_235959",
    );
    assert_eq!(
        r,
        Err(ErrorDetail::new(
            ErrorKind::InvalidInput,
            "Input file does not exist: /tmp/doc.txt".to_string()
        ))
    );
}

#[test]
fn adapter_checks_the_output_directory() {
    let r = run_at(
        Backend::Xz,
        flags(),
        "/tmp/doc.txt".to_string(),
        "/tmp/out".to_string(),
        true,
        false,
        "20240131_235959",
    );
    assert_eq!(
        r,
        Err(ErrorDetail::new(
            ErrorKind::InvalidOutput,
            "Output folder does not exist: /tmp/out".to_string()
        ))
    );
}

#[test]
fn input_without_file_name_is_invalid() {
    let r = run_at(
        Backend::SevenZip,
        flags(),
        "/".to_string(),
        "/tmp/out".to_string(),
        true,
        true,
        "20240131_235959",
    );
    assert_eq!(r, Err(ErrorDetail::new(ErrorKind::InvalidInput, "Invalid input".to_string())));
}

#[test]
fn run_names_the_artifact_by_the_clock() {
    let job = run(
        Backend::SevenZip,
        flags(),
        "/tmp/doc.txt".to_string(),
        "/tmp/out".to_string(),
        true,
        true,
    )
    .unwrap();
    let name = job.artifact_path.strip_prefix("/tmp/out/").unwrap();
    assert_eq!(name.len(), 15 + "_doc.txt.7z".len());
    assert!(name.ends_with("_doc.txt.7z"));
    assert_eq!(name.as_bytes()[8], b'_');
}
