//! The adapters without live progress: xz, 7-Zip, zpaq and paq8px. Each
//! checks what it is given and says where its artifact goes.

use crate::backend::Backend;
use crate::error::{ErrorDetail, ErrorKind, ErrorView};
use crate::naming::{artifact_path, make_artifact_path};
use crate::text::{joined, texts};
use crate::timestamp::{get_timestamp, is_timestamp};
use vstd::prelude::*;

verus! {

/// The work of one run of a backend: the caller's flags, the input, and the
/// artifact to write.
#[derive(Debug, PartialEq, Eq)]
pub struct Job {
    pub backend: Backend,
    pub flags: Vec<String>,
    pub input_path: String,
    pub artifact_path: String,
}

/// What the contracts say of a `Job`.
pub struct JobView {
    pub backend: Backend,
    pub flags: Seq<Seq<char>>,
    pub input_path: Seq<char>,
    pub artifact_path: Seq<char>,
}

impl View for Job {
    type V = JobView;

    open spec fn view(&self) -> JobView {
        JobView {
            backend: self.backend,
            flags: texts(self.flags@),
            input_path: self.input_path@,
            artifact_path: self.artifact_path@,
        }
    }
}

/// The view of a result that carries a job.
pub open spec fn job_view(r: Result<Job, ErrorDetail>) -> Result<
    JobView,
    ErrorView,
> {
    match r {
        Ok(job) => Ok(job@),
        Err(e) => Err(e@),
    }
}

/// What the adapter of `backend` decides for an input at the time
/// `timestamp`, given whether the input and the output directory exist.
pub open spec fn plan(
    backend: Backend,
    flags: Seq<Seq<char>>,
    input_path: Seq<char>,
    output_path: Seq<char>,
    input_exists: bool,
    output_exists: bool,
    timestamp: Seq<char>,
) -> Result<JobView, ErrorView> {
    if !input_exists {
        Err(
            ErrorView {
                kind: ErrorKind::InvalidInput,
                message: "Input file does not exist: "@ + input_path,
            },
        )
    } else if !output_exists {
        Err(
            ErrorView {
                kind: ErrorKind::InvalidOutput,
                message: "Output folder does not exist: "@ + output_path,
            },
        )
    } else {
        match artifact_path(
            input_path,
            output_path,
            timestamp,
            backend.extension_text(),
        ) {
            Some(artifact) => Ok(JobView { backend, flags, input_path, artifact_path: artifact }),
            None => Err(ErrorView { kind: ErrorKind::InvalidInput, message: "Invalid input"@ }),
        }
    }
}

/// Plans a run of `backend` on `input_path`, to write into the directory
/// `output_path` an artifact named at the time `timestamp`. The caller says
/// whether the two paths exist.
pub fn run_at(
    backend: Backend,
    flags: Vec<String>,
    input_path: String,
    output_path: String,
    input_exists: bool,
    output_exists: bool,
    timestamp: &str,
) -> (r: Result<Job, ErrorDetail>)
    ensures
        job_view(r) == plan(
            backend,
            texts(flags@),
            input_path@,
            output_path@,
            input_exists,
            output_exists,
            timestamp@,
        ),
{
    if !input_exists {
        return Err(
            ErrorDetail::new(
                ErrorKind::InvalidInput,
                joined("Input file does not exist: ", input_path.as_str()),
            ),
        );
    }
    if !output_exists {
        return Err(
            ErrorDetail::new(
                ErrorKind::InvalidOutput,
                joined("Output folder does not exist: ", output_path.as_str()),
            ),
        );
    }
    match make_artifact_path(
        input_path.as_str(),
        output_path.as_str(),
        timestamp,
        backend.extension(),
    ) {
        Some(artifact) => Ok(Job { backend, flags, input_path, artifact_path: artifact }),
        None => Err(ErrorDetail::new(ErrorKind::InvalidInput, "Invalid input".to_owned())),
    }
}

/// Plans a run of `backend` on `input_path`, to write into the directory
/// `output_path` an artifact named at the time that the clock shows. The
/// caller says whether the two paths exist.
pub fn run(
    backend: Backend,
    flags: Vec<String>,
    input_path: String,
    output_path: String,
    input_exists: bool,
    output_exists: bool,
) -> (r: Result<Job, ErrorDetail>)
    ensures
        exists|timestamp: Seq<char>|
            is_timestamp(timestamp) && job_view(r) == #[trigger] plan(
                backend,
                texts(flags@),
                input_path@,
                output_path@,
                input_exists,
                output_exists,
                timestamp,
            ),
{
    let timestamp = get_timestamp();
    run_at(backend, flags, input_path, output_path, input_exists, output_exists, timestamp.as_str())
}

} // verus!
