//! The packer: a directory becomes one intermediate archive, made by `tar`
//! beside the directory and hidden by its name.

use crate::error::{ErrorDetail, ErrorKind, ErrorView};
use crate::naming::{
    archive_name, file_name_of, join_path, make_archive_name, parent_of, path_file_name,
    path_join, path_parent,
};
use crate::process::{exit_code_text, push_exit_code, ExitReport, Invocation, InvocationView};
use crate::text::{joined, texts};
use vstd::prelude::*;

verus! {

/// The work of packing one directory: the command to run and the archive it
/// writes.
#[derive(Debug, PartialEq, Eq)]
pub struct TarJob {
    pub invocation: Invocation,
    pub archive_path: String,
}

/// What the contracts say of a `TarJob`.
pub struct TarJobView {
    pub invocation: InvocationView,
    pub archive_path: Seq<char>,
}

impl View for TarJob {
    type V = TarJobView;

    open spec fn view(&self) -> TarJobView {
        TarJobView { invocation: self.invocation@, archive_path: self.archive_path@ }
    }
}

/// How the run of `tar` went.
#[derive(Debug, PartialEq, Eq)]
pub enum TarOutcome {
    /// The process could not be started; the reason.
    StartFailed(String),
    /// The process ran and ended.
    Exited(ExitReport),
}

/// Where the archive of the directory `input_path` is written: beside the
/// directory, under its hidden name. None for a path without a parent or
/// without a final component.
pub open spec fn archive_path(input_path: Seq<char>) -> Option<Seq<char>> {
    match (path_parent(input_path), path_file_name(input_path)) {
        (Some(parent), Some(name)) => Some(path_join(parent, archive_name(name))),
        _ => None,
    }
}

/// The command that packs the directory `name` that lies in `parent` into
/// `archive`: `tar -cf <archive> -C <parent> <name>`, so that the archive
/// holds the directory as its one top-level entry.
pub open spec fn tar_command(
    archive: Seq<char>,
    parent: Seq<char>,
    name: Seq<char>,
) -> InvocationView {
    InvocationView { program: "tar"@, args: seq!["-cf"@, archive, "-C"@, parent, name] }
}

/// The job that packs the directory `name` that lies in `parent` into
/// `archive`.
pub fn tar_job(archive: String, parent: String, name: String) -> (r: TarJob)
    ensures
        r@ == (TarJobView {
            invocation: tar_command(archive@, parent@, name@),
            archive_path: archive@,
        }),
{
    let mut args: Vec<String> = Vec::new();
    args.push("-cf".to_owned());
    args.push(archive.clone());
    args.push("-C".to_owned());
    args.push(parent);
    args.push(name);
    let job = TarJob {
        invocation: Invocation { program: "tar".to_owned(), args },
        archive_path: archive,
    };
    assert(texts(job.invocation.args@) =~= tar_command(archive@, parent@, name@).args);
    job
}

/// The command that packs `input_path`.
pub open spec fn tar_invocation(input_path: Seq<char>) -> InvocationView {
    tar_command(
        archive_path(input_path).unwrap(),
        path_parent(input_path).unwrap(),
        path_file_name(input_path).unwrap(),
    )
}

/// What `pack` decides for the path `input_path`, given whether it exists.
pub open spec fn pack_plan(input_path: Seq<char>, input_exists: bool) -> Result<
    TarJobView,
    ErrorView,
> {
    if !input_exists {
        Err(
            ErrorView {
                kind: ErrorKind::PathNotFound,
                message: "Input path does not exist: "@ + input_path,
            },
        )
    } else if path_parent(input_path) is None {
        Err(
            ErrorView {
                kind: ErrorKind::InvalidInput,
                message: "Could not determine parent directory"@,
            },
        )
    } else if path_file_name(input_path) is None {
        Err(ErrorView { kind: ErrorKind::InvalidInput, message: "Could not determine file name"@ })
    } else {
        Ok(
            TarJobView {
                invocation: tar_invocation(input_path),
                archive_path: archive_path(input_path).unwrap(),
            },
        )
    }
}

/// What a run of `tar` that went as `outcome` says amounts to: the path of the
/// archive, or why there is none.
pub open spec fn pack_result(job: TarJobView, outcome: TarOutcome) -> Result<
    Seq<char>,
    ErrorView,
> {
    match outcome {
        TarOutcome::StartFailed(reason) => Err(
            ErrorView {
                kind: ErrorKind::BackendInvocationFailed,
                message: "Failed to run tar command: "@ + reason@,
            },
        ),
        TarOutcome::Exited(report) => if report.success {
            Ok(job.archive_path)
        } else {
            Err(
                ErrorView {
                    kind: ErrorKind::BackendExitFailure,
                    message: "tar command failed with status: "@ + exit_code_text(report.code),
                },
            )
        },
    }
}

/// The view of a result that carries a job.
pub open spec fn job_view(r: Result<TarJob, ErrorDetail>) -> Result<TarJobView, ErrorView> {
    match r {
        Ok(job) => Ok(job@),
        Err(e) => Err(e@),
    }
}

/// The view of a result that carries a path.
pub open spec fn path_view(r: Result<String, ErrorDetail>) -> Result<Seq<char>, ErrorView> {
    match r {
        Ok(path) => Ok(path@),
        Err(e) => Err(e@),
    }
}

/// Plans the packing of the directory `input_path`. The caller says whether
/// the path exists, and runs the command of the job it is given.
pub fn pack(input_path: &str, input_exists: bool) -> (r: Result<TarJob, ErrorDetail>)
    ensures
        job_view(r) == pack_plan(input_path@, input_exists),
{
    if !input_exists {
        return Err(
            ErrorDetail::new(
                ErrorKind::PathNotFound,
                joined("Input path does not exist: ", input_path),
            ),
        );
    }
    let parent = match parent_of(input_path) {
        Some(parent) => parent,
        None => {
            return Err(
                ErrorDetail::new(
                    ErrorKind::InvalidInput,
                    "Could not determine parent directory".to_owned(),
                ),
            );
        },
    };
    let name = match file_name_of(input_path) {
        Some(name) => name,
        None => {
            return Err(
                ErrorDetail::new(
                    ErrorKind::InvalidInput,
                    "Could not determine file name".to_owned(),
                ),
            );
        },
    };
    let tar_name = make_archive_name(name.as_str());
    let tar_path = join_path(parent.as_str(), tar_name.as_str());
    Ok(tar_job(tar_path, parent, name))
}

impl TarJob {
    /// Judges the run of the job's command: the path of the archive if `tar`
    /// reported success, else the failure.
    pub fn conclude(self, outcome: TarOutcome) -> (r: Result<String, ErrorDetail>)
        ensures
            path_view(r) == pack_result(self@, outcome),
    {
        match outcome {
            TarOutcome::StartFailed(reason) => Err(
                ErrorDetail::new(
                    ErrorKind::BackendInvocationFailed,
                    joined("Failed to run tar command: ", reason.as_str()),
                ),
            ),
            TarOutcome::Exited(report) => {
                if report.success {
                    Ok(self.archive_path)
                } else {
                    let mut message = "tar command failed with status: ".to_owned();
                    push_exit_code(&mut message, report.code);
                    Err(ErrorDetail::new(ErrorKind::BackendExitFailure, message))
                }
            },
        }
    }
}

} // verus!
