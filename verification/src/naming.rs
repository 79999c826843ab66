//! Names and places of the files that a request makes: the intermediate
//! archive of a directory and the compressed artifact.
//!
//! A path is taken apart and put together by `std::path`, as it does on the
//! platform that the library is built for; what this module adds is the
//! naming convention.

use crate::text::{has_prefix, starts_with};
use vstd::prelude::*;

verus! {

/// The prefix that marks a file as a transient artifact.
pub open spec fn hiding_prefix() -> Seq<char> {
    ".tmp_"@
}

/// What `Path::file_name` returns for the path `path`: its final component,
/// if it has one.
pub uninterp spec fn path_file_name(path: Seq<char>) -> Option<Seq<char>>;

/// What `Path::parent` returns for the path `path`: the path without its
/// final component, if there is one.
pub uninterp spec fn path_parent(path: Seq<char>) -> Option<Seq<char>>;

/// The path that `PathBuf::push` makes of the path `dir` when `name` is
/// pushed onto it.
pub uninterp spec fn path_join(dir: Seq<char>, name: Seq<char>) -> Seq<char>;

/// Calls `std::path::Path::file_name` on the path with the characters of
/// `path`. Nothing is proved of it. The contract claims that what comes back
/// depends on those characters alone, and gives it the name
/// `path_file_name`; which part of the path it is, it does not say.
#[verifier::external_body]
pub(crate) fn file_name_of(path: &str) -> (r: Option<String>)
    ensures
        match r {
            Some(name) => path_file_name(path@) == Some(name@),
            None => path_file_name(path@) is None,
        },
{
    match std::path::Path::new(path).file_name() {
        Some(name) => Some(name.to_string_lossy().into_owned()),
        None => None,
    }
}

/// Calls `std::path::Path::parent` on the path with the characters of
/// `path`. Nothing is proved of it. The contract claims that what comes back
/// depends on those characters alone, and gives it the name `path_parent`;
/// which part of the path it is, it does not say.
#[verifier::external_body]
pub(crate) fn parent_of(path: &str) -> (r: Option<String>)
    ensures
        match r {
            Some(dir) => path_parent(path@) == Some(dir@),
            None => path_parent(path@) is None,
        },
{
    match std::path::Path::new(path).parent() {
        Some(dir) => Some(dir.to_string_lossy().into_owned()),
        None => None,
    }
}

/// Calls `std::path::PathBuf::push` on the path with the characters of
/// `dir`, to push `name` onto it. Nothing is proved of it. The contract
/// claims that the path that results depends on the characters of `dir` and
/// `name` alone, and gives it the name `path_join`; where the separator
/// goes, it does not say.
#[verifier::external_body]
pub(crate) fn join_path(dir: &str, name: &str) -> (r: String)
    ensures
        r@ == path_join(dir@, name@),
{
    let mut path = std::path::PathBuf::from(dir);
    path.push(name);
    path.to_string_lossy().into_owned()
}

/// The name under which a file is archived or compressed: its file name
/// without the hiding prefix, where it has one.
pub open spec fn base_name(file_name: Seq<char>) -> Seq<char> {
    if has_prefix(file_name, hiding_prefix()) {
        file_name.skip(hiding_prefix().len() as int)
    } else {
        file_name
    }
}

/// The file name of the intermediate archive of the directory `dir_name`.
pub open spec fn archive_name(dir_name: Seq<char>) -> Seq<char> {
    hiding_prefix() + dir_name + ".tar"@
}

/// The file name of the artifact that compressing `file_name` at the time
/// `timestamp` gives, for a backend whose files end in `extension`.
pub open spec fn artifact_name(
    timestamp: Seq<char>,
    file_name: Seq<char>,
    extension: Seq<char>,
) -> Seq<char> {
    timestamp + "_"@ + base_name(file_name) + "."@ + extension
}

/// `file_name` without the hiding prefix, where it has one.
pub fn strip_hiding_prefix(file_name: &str) -> (r: String)
    ensures
        r@ == base_name(file_name@),
{
    if starts_with(file_name, ".tmp_") {
        proof {
            reveal_strlit(".tmp_");
        }
        let n = file_name.unicode_len();
        file_name.substring_char(5, n).to_owned()
    } else {
        file_name.to_owned()
    }
}

/// The file name of the intermediate archive of the directory `dir_name`.
pub fn make_archive_name(dir_name: &str) -> (r: String)
    ensures
        r@ == archive_name(dir_name@),
{
    let mut name = ".tmp_".to_owned();
    name.append(dir_name);
    name.append(".tar");
    name
}

/// The file name of the artifact that compressing `file_name` at the time
/// `timestamp` gives, for a backend whose files end in `extension`.
pub fn make_artifact_name(timestamp: &str, file_name: &str, extension: &str) -> (r: String)
    ensures
        r@ == artifact_name(timestamp@, file_name@, extension@),
{
    let base = strip_hiding_prefix(file_name);
    let mut name = timestamp.to_owned();
    name.append("_");
    name.append(base.as_str());
    name.append(".");
    name.append(extension);
    name
}

/// Where the artifact of compressing `input_path` at the time `timestamp` is
/// written: in the directory `output_path`, under the artifact name of the
/// input's file name. None for an input path without a final component.
pub open spec fn artifact_path(
    input_path: Seq<char>,
    output_path: Seq<char>,
    timestamp: Seq<char>,
    extension: Seq<char>,
) -> Option<Seq<char>> {
    match path_file_name(input_path) {
        Some(name) => Some(path_join(output_path, artifact_name(timestamp, name, extension))),
        None => None,
    }
}

/// Where the artifact of compressing `input_path` at the time `timestamp` is
/// written.
pub fn make_artifact_path(
    input_path: &str,
    output_path: &str,
    timestamp: &str,
    extension: &str,
) -> (r: Option<String>)
    ensures
        match r {
            Some(path) => artifact_path(input_path@, output_path@, timestamp@, extension@) == Some(
                path@,
            ),
            None => artifact_path(input_path@, output_path@, timestamp@, extension@) is None,
        },
{
    match file_name_of(input_path) {
        Some(name) => {
            let artifact = make_artifact_name(timestamp, name.as_str(), extension);
            Some(join_path(output_path, artifact.as_str()))
        },
        None => None,
    }
}

/// The name under which a hidden file is compressed is its name without the
/// hiding prefix.
pub proof fn law_base_name_of_hidden_file(rest: Seq<char>)
    ensures
        base_name(hiding_prefix() + rest) == rest,
{
    let name = hiding_prefix() + rest;
    assert(name.subrange(0, hiding_prefix().len() as int) =~= hiding_prefix());
}

/// The archive of a directory is compressed under the name of the
/// directory: the hiding prefix of the archive does not reach the artifact.
pub proof fn law_artifact_of_an_archive(
    timestamp: Seq<char>,
    dir_name: Seq<char>,
    extension: Seq<char>,
)
    ensures
        artifact_name(timestamp, archive_name(dir_name), extension) == timestamp + "_"@ + dir_name
            + ".tar"@ + "."@ + extension,
{
    law_base_name_of_hidden_file(dir_name + ".tar"@);
    assert(archive_name(dir_name) =~= hiding_prefix() + (dir_name + ".tar"@));
}

/// A base name does not begin with the hiding prefix, unless the file name
/// began with the prefix twice over.
pub proof fn law_base_name_is_not_hidden(file_name: Seq<char>)
    requires
        !has_prefix(file_name, hiding_prefix() + hiding_prefix()),
    ensures
        !has_prefix(base_name(file_name), hiding_prefix()),
{
    let p = hiding_prefix();
    if has_prefix(file_name, p) && has_prefix(base_name(file_name), p) {
        assert(file_name.subrange(0, (p + p).len() as int) =~= p + p);
    }
}

/// An artifact name begins with the timestamp and an underscore and ends with
/// a point and the extension; between them stands the base name.
pub proof fn law_artifact_name_shape(
    timestamp: Seq<char>,
    file_name: Seq<char>,
    extension: Seq<char>,
)
    ensures
        has_prefix(artifact_name(timestamp, file_name, extension), timestamp + "_"@),
        artifact_name(timestamp, file_name, extension).skip((timestamp.len() + 1) as int)
            == base_name(file_name) + "."@ + extension,
{
    reveal_strlit("_");
    reveal_strlit(".");
    let name = artifact_name(timestamp, file_name, extension);
    assert(name.subrange(0, (timestamp + "_"@).len() as int) =~= timestamp + "_"@);
}

} // verus!
