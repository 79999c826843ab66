use compress_dispatch::naming::{
    make_archive_name, make_artifact_name, make_artifact_path, strip_hiding_prefix,
};
use compress_dispatch::timestamp::get_timestamp;

#[test]
fn hiding_prefix_is_stripped_once() {
    assert_eq!(strip_hiding_prefix(".tmp_folder.tar"), "folder.tar");
    assert_eq!(strip_hiding_prefix("doc.txt"), "doc.txt");
    assert_eq!(strip_hiding_prefix(".tmp_"), "");
    assert_eq!(strip_hiding_prefix(".tmp_.tmp_x"), ".tmp_x");
    assert_eq!(strip_hiding_prefix("a.tmp_b"), "a.tmp_b");
    assert_eq!(strip_hiding_prefix(".tmp"), ".tmp");
}

#[test]
fn archive_name_hides_the_directory_name() {
    assert_eq!(make_archive_name("folder"), ".tmp_folder.tar");
    assert_eq!(make_archive_name(""), ".tmp_.tar");
}

#[test]
fn artifact_name_has_timestamp_base_name_and_extension() {
    assert_eq!(
        make_artifact_name("20240131_235959", "doc.txt", "zst"),
        "20240131_235959_doc.txt.zst"
    );
    assert_eq!(
        make_artifact_name("20240131_235959", ".tmp_folder.tar", "zst"),
        "20240131_235959_folder.tar.zst"
    );
    assert_eq!(make_artifact_name("20240131_235959", ".tmp_folder.tar", "7z"), "20240131_235959_folder.tar.7z");
}

#[test]
fn artifact_goes_into_the_output_directory() {
    assert_eq!(
        make_artifact_path("/tmp/doc.txt", "/tmp/out", "20240131_235959", "zst"),
        Some("/tmp/out/20240131_235959_doc.txt.zst".to_string())
    );
    assert_eq!(
        make_artifact_path("/tmp/.tmp_folder.tar", "/tmp/out/", "20240131_235959", "xz"),
        Some("/tmp/out/20240131_235959_folder.tar.xz".to_string())
    );
    assert_eq!(
        make_artifact_path("relative/dir/", "out", "20240131_235959", "zpaq"),
        Some("out/20240131_235959_dir.zpaq".to_string())
    );
}

#[test]
fn path_without_file_name_has_no_artifact() {
    assert_eq!(make_artifact_path("/", "/tmp/out", "20240131_235959", "zst"), None);
    assert_eq!(make_artifact_path("/tmp/..", "/tmp/out", "20240131_235959", "zst"), None);
    assert_eq!(make_artifact_path("", "/tmp/out", "20240131_235959", "zst"), None);
}

#[test]
fn timestamp_has_date_underscore_time() {
    let t = get_timestamp();
    let chars: Vec<char> = t.chars().collect();
    assert_eq!(chars.len(), 15);
    for (i, c) in chars.iter().enumerate() {
        if i == 8 {
            assert_eq!(*c, '_');
        } else {
            assert!(c.is_ascii_digit());
        }
    }
    let month: u32 = t[4..6].parse().unwrap();
    let day: u32 = t[6..8].parse().unwrap();
    let hour: u32 = t[9..11].parse().unwrap();
    let minute: u32 = t[11..13].parse().unwrap();
    let second: u32 = t[13..15].parse().unwrap();
    assert!((1..=12).contains(&month));
    assert!((1..=31).contains(&day));
    assert!(hour < 24);
    assert!(minute < 60);
    assert!(second <= 60);
}

#[test]
fn timestamp_does_not_run_backwards() {
    let a = get_timestamp();
    let b = get_timestamp();
    assert!(a[..8] <= b[..8]);
}

#[test]
fn stripping_agrees_with_the_standard_library() {
    for name in ["", ".", ".tmp_", ".tmp_a", "x.tmp_", ".tmp_.tmp_", ".TMP_a", ".tmp_é"] {
        let expected = name.strip_prefix(".tmp_").unwrap_or(name);
        assert_eq!(strip_hiding_prefix(name), expected);
    }
}
