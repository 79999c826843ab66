use compress_dispatch::backend::Backend;
use compress_dispatch::dispatcher::{dispatch, Command, Dispatch, DispatchPhase, Reply, Step};
use compress_dispatch::error::{ErrorDetail, ErrorKind};
use compress_dispatch::event::{CompressionEvent, EventType};
use compress_dispatch::packer::{pack, TarOutcome};
use compress_dispatch::process::ExitReport;
use compress_dispatch::zstd::{run, ZstdCommand, ZstdReply};

const T: &str = "20240131_235959";

/// A make-believe machine: which paths exist, which are directories, which
/// programs are installed, and what zstd writes to its diagnostic stream.
struct World {
    files: Vec<String>,
    dirs: Vec<String>,
    zstd_installed: bool,
    zstd_stream: Vec<Vec<u8>>,
    zstd_exit: ExitReport,
    tar_exit: ExitReport,
    removal_fails: bool,
    log: Vec<String>,
}

impl World {
    fn new() -> World {
        World {
            files: vec!["/tmp/doc.txt".to_string()],
            dirs: vec!["/tmp".to_string(), "/tmp/out".to_string(), "/tmp/folder".to_string()],
            zstd_installed: true,
            zstd_stream: vec![b"\rdoc : 50.0%".to_vec(), b"\rdoc : 100.0%\n".to_vec()],
            zstd_exit: ExitReport { success: true, code: Some(0) },
            tar_exit: ExitReport { success: true, code: Some(0) },
            removal_fails: false,
            log: Vec::new(),
        }
    }

    fn has(&self, path: &str) -> bool {
        self.files.iter().any(|f| f == path) || self.dirs.iter().any(|d| d == path)
    }

    fn is_dir(&self, path: &str) -> bool {
        self.dirs.iter().any(|d| d == path)
    }

    fn run_tar(&mut self, input: &str) -> Result<String, ErrorDetail> {
        let job = pack(input, self.has(input))?;
        self.log.push(format!("{} {}", job.invocation.program, job.invocation.args.join(" ")));
        if self.tar_exit.success {
            self.files.push(job.archive_path.clone());
        }
        job.conclude(TarOutcome::Exited(self.tar_exit))
    }

    fn run_zstd(
        &mut self,
        flags: Vec<String>,
        input: String,
        output: String,
        events: &mut Vec<CompressionEvent>,
    ) -> Result<(), ErrorDetail> {
        let (mut session, mut step) = run(flags, input, output);
        let mut chunks = self.zstd_stream.clone().into_iter();
        loop {
            events.extend(step.events);
            let reply = match step.command {
                ZstdCommand::CheckExists(path) => ZstdReply::Exists(self.has(&path)),
                ZstdCommand::Spawn(invocation) => {
                    if self.zstd_installed {
                        self.log.push(format!("{} {}", invocation.program, invocation.args.join(" ")));
                        self.files.push(invocation.args.last().unwrap().clone());
                        ZstdReply::Spawned { stderr: true, stdout: true }
                    } else {
                        ZstdReply::SpawnFailed {
                            not_found: true,
                            reason: "No such file or directory (os error 2)".to_string(),
                        }
                    }
                }
                ZstdCommand::ReadStderr => ZstdReply::Read(chunks.next().unwrap_or_default()),
                ZstdCommand::DrainStdout => ZstdReply::Drained,
                ZstdCommand::Wait => ZstdReply::Exited(self.zstd_exit),
                ZstdCommand::Done(result) => return result,
            };
            step = session.advance_at(reply, T).unwrap();
        }
    }

    fn remove(&mut self, path: &str) -> Result<(), String> {
        self.log.push(format!("rm {}", path));
        if self.removal_fails {
            Err("Permission denied (os error 13)".to_string())
        } else {
            self.files.retain(|f| f != path);
            Ok(())
        }
    }
}

struct Outcome {
    events: Vec<CompressionEvent>,
    warnings: Vec<ErrorDetail>,
    result: Result<(), ErrorDetail>,
}

fn carry_out(world: &mut World, algorithm: Option<&str>, input: &str, output: &str) -> Outcome {
    let (mut request, mut step) = dispatch(
        algorithm.map(|a| a.to_string()),
        vec!["-3".to_string()],
        input.to_string(),
        output.to_string(),
    );
    let mut events = Vec::new();
    let mut warnings = Vec::new();
    loop {
        events.extend(step.events);
        warnings.extend(step.warning);
        let reply = match step.command {
            Command::CheckExists(path) => Reply::Exists(world.has(&path)),
            Command::CheckIsDir(path) => Reply::IsDir(world.is_dir(&path)),
            Command::Pack(path) => Reply::Packed(world.run_tar(&path)),
            Command::Compress { backend, flags, input_path, output_path } => {
                assert_eq!(backend, Backend::Zstd);
                Reply::Compressed(world.run_zstd(flags, input_path, output_path, &mut events))
            }
            Command::RemoveFile(path) => Reply::Removed(world.remove(&path)),
            Command::Done(result) => return Outcome { events, warnings, result },
        };
        step = request.advance(reply).unwrap();
    }
}

fn kinds(events: &[CompressionEvent]) -> Vec<EventType> {
    events.iter().map(|e| e.event_type).collect()
}

fn messages(events: &[CompressionEvent]) -> Vec<&str> {
    events.iter().map(|e| e.message.as_str()).collect()
}

fn terminal_count(events: &[CompressionEvent]) -> usize {
    events.iter().filter(|e| e.event_type.terminal()).count()
}

fn begin(algorithm: Option<&str>, input: &str, output: &str) -> (Dispatch, Step) {
    dispatch(algorithm.map(|a| a.to_string()), Vec::new(), input.to_string(), output.to_string())
}

fn failure(kind: ErrorKind, message: &str) -> Result<(), ErrorDetail> {
    Err(ErrorDetail::new(kind, message.to_string()))
}

#[test]
fn file_is_compressed_without_packing() {
    let mut world = World::new();
    let out = carry_out(&mut world, Some("zstd"), "/tmp/doc.txt", "/tmp/out");
    assert_eq!(out.result, Ok(()));
    assert_eq!(
        kinds(&out.events),
        vec![
            EventType::Status,
            EventType::Status,
            EventType::Progress,
            EventType::Progress,
            EventType::Success
        ]
    );
    assert_eq!(
        messages(&out.events),
        vec![
            "Starting zstd compression...",
            "Input is a file. Skipping tar...",
            "doc : 50.0%",
            "doc : 100.0%",
            "Compression finished successfully"
        ]
    );
    assert_eq!(out.events[0].percentage.as_ref().unwrap().as_str().parse::<f32>().unwrap(), 0.0);
    assert_eq!(out.events[1].percentage, None);
    assert_eq!(out.events[2].percentage.as_ref().unwrap().as_str().parse::<f32>().unwrap(), 50.0);
    assert_eq!(out.events[4].percentage.as_ref().unwrap().as_str().parse::<f32>().unwrap(), 100.0);
    assert!(out.events.iter().all(|e| e.algorithm == "zstd"));
    assert_eq!(
        world.log,
        vec!["zstd --progress -f -3 /tmp/doc.txt -o /tmp/out/20240131_235959_doc.txt.zst"]
    );
    assert!(world.has("/tmp/out/20240131_235959_doc.txt.zst"));
    assert!(out.warnings.is_empty());
}

#[test]
fn missing_input_gives_one_error_and_starts_nothing() {
    let mut world = World::new();
    let out = carry_out(&mut world, Some("zstd"), "/tmp/missing.txt", "/tmp/out");
    assert_eq!(
        out.result,
        failure(ErrorKind::InvalidInput, "Input file does not exist: /tmp/missing.txt")
    );
    assert_eq!(kinds(&out.events), vec![EventType::Error]);
    assert_eq!(out.events[0].message, "Input file does not exist: /tmp/missing.txt");
    assert_eq!(out.events[0].percentage, None);
    assert!(world.log.is_empty());
}

#[test]
fn output_that_is_no_directory_gives_one_error() {
    let mut world = World::new();
    let out = carry_out(&mut world, None, "/tmp/doc.txt", "/tmp/doc.txt");
    assert_eq!(
        out.result,
        failure(
            ErrorKind::InvalidOutput,
            "Output folder does not exist or is not a directory: /tmp/doc.txt"
        )
    );
    assert_eq!(kinds(&out.events), vec![EventType::Error]);
    assert!(world.log.is_empty());
    let out = carry_out(&mut world, None, "/tmp/doc.txt", "/tmp/nowhere");
    assert_eq!(
        out.result,
        failure(
            ErrorKind::InvalidOutput,
            "Output folder does not exist or is not a directory: /tmp/nowhere"
        )
    );
}

#[test]
fn directory_is_packed_compressed_and_cleaned_up() {
    let mut world = World::new();
    let out = carry_out(&mut world, None, "/tmp/folder", "/tmp/out");
    assert_eq!(out.result, Ok(()));
    assert_eq!(
        world.log,
        vec![
            "tar -cf /tmp/.tmp_folder.tar -C /tmp folder",
            "zstd --progress -f -3 /tmp/.tmp_folder.tar -o /tmp/out/20240131_235959_folder.tar.zst",
            "rm /tmp/.tmp_folder.tar"
        ]
    );
    assert!(!world.has("/tmp/.tmp_folder.tar"));
    assert!(world.has("/tmp/out/20240131_235959_folder.tar.zst"));
    assert_eq!(
        messages(&out.events),
        vec![
            "Starting zstd compression...",
            "Input is a directory. Creating intermediate tar...",
            "doc : 50.0%",
            "doc : 100.0%",
            "Compression finished successfully"
        ]
    );
    assert_eq!(terminal_count(&out.events), 1);
}

#[test]
fn archive_is_removed_when_the_backend_fails() {
    let mut world = World::new();
    world.zstd_exit = ExitReport { success: false, code: Some(1) };
    world.zstd_stream = vec![b"zstd: error\n".to_vec()];
    let out = carry_out(&mut world, None, "/tmp/folder", "/tmp/out");
    assert_eq!(
        out.result,
        failure(
            ErrorKind::BackendExitFailure,
            "zstd exited with status Some(1)\n\nstderr:\nzstd: error\n"
        )
    );
    assert_eq!(world.log.last().unwrap(), "rm /tmp/.tmp_folder.tar");
    assert!(!world.has("/tmp/.tmp_folder.tar"));
    assert_eq!(out.events.last().unwrap().event_type, EventType::Error);
    assert_eq!(
        out.events.last().unwrap().message,
        "zstd exited with status Some(1)\n\nstderr:\nzstd: error\n"
    );
    assert_eq!(terminal_count(&out.events), 1);
}

#[test]
fn missing_backend_asks_for_installation() {
    let mut world = World::new();
    world.zstd_installed = false;
    let out = carry_out(&mut world, Some("zstd"), "/tmp/doc.txt", "/tmp/out");
    assert_eq!(
        out.result,
        failure(
            ErrorKind::BackendNotFound,
            "zstd command not found. Please install zstd and ensure it is in your PATH."
        )
    );
    let last = out.events.last().unwrap();
    assert_eq!(last.event_type, EventType::Error);
    assert!(last.message.contains("install zstd"));
    assert_eq!(last.percentage, None);
    assert_eq!(terminal_count(&out.events), 1);
}

#[test]
fn failed_packing_ends_the_request_without_cleanup() {
    let mut world = World::new();
    world.tar_exit = ExitReport { success: false, code: Some(2) };
    let out = carry_out(&mut world, None, "/tmp/folder", "/tmp/out");
    assert_eq!(
        out.result,
        failure(ErrorKind::PackingFailed, "tar command failed with status: Some(2)")
    );
    assert_eq!(world.log, vec!["tar -cf /tmp/.tmp_folder.tar -C /tmp folder"]);
    assert_eq!(
        messages(&out.events),
        vec![
            "Starting zstd compression...",
            "Input is a directory. Creating intermediate tar...",
            "tar command failed with status: Some(2)"
        ]
    );
    assert_eq!(out.events.last().unwrap().event_type, EventType::Error);
}

#[test]
fn failed_cleanup_is_a_warning_only() {
    let mut world = World::new();
    world.removal_fails = true;
    let out = carry_out(&mut world, None, "/tmp/folder", "/tmp/out");
    assert_eq!(out.result, Ok(()));
    assert_eq!(
        out.warnings,
        vec![ErrorDetail::new(
            ErrorKind::CleanupWarning,
            "Warning: failed to remove intermediate tar /tmp/.tmp_folder.tar: Permission denied (os error 13)"
                .to_string()
        )]
    );
    assert_eq!(out.events.last().unwrap().event_type, EventType::Success);
    assert_eq!(terminal_count(&out.events), 1);
}

#[test]
fn unknown_algorithm_fails_without_running_a_backend() {
    let mut world = World::new();
    let out = carry_out(&mut world, Some("Brotli"), "/tmp/doc.txt", "/tmp/out");
    assert_eq!(out.result, failure(ErrorKind::UnknownAlgorithm, "Unknown algorithm 'brotli'"));
    assert!(world.log.is_empty());
    assert_eq!(
        messages(&out.events),
        vec![
            "Starting brotli compression...",
            "Input is a file. Skipping tar...",
            "Unknown algorithm 'brotli'"
        ]
    );
    assert_eq!(
        kinds(&out.events),
        vec![EventType::Status, EventType::Status, EventType::Error]
    );
    assert!(out.events.iter().all(|e| e.algorithm == "brotli"));
}

#[test]
fn unknown_algorithm_still_removes_the_archive() {
    let mut world = World::new();
    let out = carry_out(&mut world, Some("gzip"), "/tmp/folder", "/tmp/out");
    assert_eq!(out.result, failure(ErrorKind::UnknownAlgorithm, "Unknown algorithm 'gzip'"));
    assert_eq!(
        world.log,
        vec!["tar -cf /tmp/.tmp_folder.tar -C /tmp folder", "rm /tmp/.tmp_folder.tar"]
    );
    assert!(!world.has("/tmp/.tmp_folder.tar"));
    assert_eq!(terminal_count(&out.events), 1);
    assert_eq!(out.events.last().unwrap().event_type, EventType::Error);
}

#[test]
fn request_begins_by_checking_the_input() {
    let (request, step) = begin(Some("XZ"), "/tmp/doc.txt", "/tmp/out");
    assert_eq!(request.phase(), DispatchPhase::CheckingInput);
    assert_eq!(request.algorithm(), "xz");
    assert!(step.events.is_empty());
    assert_eq!(step.warning, None);
    assert_eq!(step.command, Command::CheckExists("/tmp/doc.txt".to_string()));
}

#[test]
fn names_of_seven_zip_reach_the_same_backend() {
    for name in ["7Z", "7zip", "SevenZip", "7z", "SEVENZIP", "7ZIP"] {
        let (mut request, _) = begin(Some(name), "/tmp/doc.txt", "/tmp/out");
        request.advance(Reply::Exists(true)).unwrap();
        request.advance(Reply::IsDir(true)).unwrap();
        let step = request.advance(Reply::IsDir(false)).unwrap();
        match step.command {
            Command::Compress { backend, input_path, output_path, .. } => {
                assert_eq!(backend, Backend::SevenZip);
                assert_eq!(input_path, "/tmp/doc.txt");
                assert_eq!(output_path, "/tmp/out");
            }
            other => panic!("unexpected command {:?}", other),
        }
        assert_eq!(request.phase(), DispatchPhase::Compressing);
    }
}

#[test]
fn every_backend_is_reached_by_its_name() {
    for (name, expected) in [
        ("zstd", Backend::Zstd),
        ("Xz", Backend::Xz),
        ("ZPAQ", Backend::Zpaq),
        ("paq8px", Backend::Paq8px),
    ] {
        let (mut request, _) = begin(Some(name), "/tmp/doc.txt", "/tmp/out");
        request.advance(Reply::Exists(true)).unwrap();
        request.advance(Reply::IsDir(true)).unwrap();
        let step = request.advance(Reply::IsDir(false)).unwrap();
        match step.command {
            Command::Compress { backend, .. } => assert_eq!(backend, expected),
            other => panic!("unexpected command {:?}", other),
        }
    }
}

#[test]
fn flags_reach_the_backend_unchanged() {
    let flags = vec!["--ultra".to_string(), "-22".to_string(), "a b".to_string()];
    let (mut request, _) =
        dispatch(None, flags.clone(), "/tmp/doc.txt".to_string(), "/tmp/out".to_string());
    request.advance(Reply::Exists(true)).unwrap();
    request.advance(Reply::IsDir(true)).unwrap();
    let step = request.advance(Reply::IsDir(false)).unwrap();
    match step.command {
        Command::Compress { flags: passed, .. } => assert_eq!(passed, flags),
        other => panic!("unexpected command {:?}", other),
    }
}

#[test]
fn backend_runs_on_the_archive_of_a_directory() {
    let (mut request, _) = begin(None, "/tmp/folder", "/tmp/out");
    request.advance(Reply::Exists(true)).unwrap();
    let step = request.advance(Reply::IsDir(true)).unwrap();
    assert_eq!(step.command, Command::CheckIsDir("/tmp/folder".to_string()));
    let step = request.advance(Reply::IsDir(true)).unwrap();
    assert_eq!(step.command, Command::Pack("/tmp/folder".to_string()));
    assert_eq!(request.phase(), DispatchPhase::Packing);
    let step = request.advance(Reply::Packed(Ok("/tmp/.tmp_folder.tar".to_string()))).unwrap();
    assert!(step.events.is_empty());
    match step.command {
        Command::Compress { backend, input_path, output_path, .. } => {
            assert_eq!(backend, Backend::Zstd);
            assert_eq!(input_path, "/tmp/.tmp_folder.tar");
            assert_eq!(output_path, "/tmp/out");
        }
        other => panic!("unexpected command {:?}", other),
    }
    let step = request.advance(Reply::Compressed(Ok(()))).unwrap();
    assert_eq!(step.command, Command::RemoveFile("/tmp/.tmp_folder.tar".to_string()));
    assert!(step.events.is_empty());
    assert_eq!(request.phase(), DispatchPhase::Cleaning);
    let step = request.advance(Reply::Removed(Ok(()))).unwrap();
    assert_eq!(step.command, Command::Done(Ok(())));
    assert_eq!(kinds(&step.events), vec![EventType::Success]);
    assert_eq!(request.phase(), DispatchPhase::Finished);
}

#[test]
fn packer_failure_is_passed_on_word_for_word() {
    let (mut request, _) = begin(None, "/tmp/folder", "/tmp/out");
    request.advance(Reply::Exists(true)).unwrap();
    request.advance(Reply::IsDir(true)).unwrap();
    request.advance(Reply::IsDir(true)).unwrap();
    let cause = ErrorDetail::new(
        ErrorKind::BackendInvocationFailed,
        "Failed to run tar command: not found".to_string(),
    );
    let step = request.advance(Reply::Packed(Err(cause))).unwrap();
    assert_eq!(
        step.command,
        Command::Done(failure(ErrorKind::PackingFailed, "Failed to run tar command: not found"))
    );
    assert_eq!(messages(&step.events), vec!["Failed to run tar command: not found"]);
    assert_eq!(request.phase(), DispatchPhase::Finished);
}

#[test]
fn backend_failure_is_passed_on_as_it_is() {
    let (mut request, _) = begin(None, "/tmp/doc.txt", "/tmp/out");
    request.advance(Reply::Exists(true)).unwrap();
    request.advance(Reply::IsDir(true)).unwrap();
    request.advance(Reply::IsDir(false)).unwrap();
    let cause = ErrorDetail::new(ErrorKind::BackendNotFound, "zstd command not found.".to_string());
    let step = request.advance(Reply::Compressed(Err(cause))).unwrap();
    assert_eq!(
        step.command,
        Command::Done(failure(ErrorKind::BackendNotFound, "zstd command not found."))
    );
    assert_eq!(kinds(&step.events), vec![EventType::Error]);
    assert_eq!(step.events[0].message, "zstd command not found.");
}

#[test]
fn answer_to_another_command_leaves_the_request_alone() {
    let (mut request, _) = begin(None, "/tmp/doc.txt", "/tmp/out");
    assert_eq!(request.advance(Reply::IsDir(true)), None);
    assert_eq!(request.advance(Reply::Compressed(Ok(()))), None);
    assert_eq!(request.advance(Reply::Removed(Ok(()))), None);
    assert_eq!(request.advance(Reply::Packed(Ok("/x".to_string()))), None);
    assert_eq!(request.phase(), DispatchPhase::CheckingInput);
    let step = request.advance(Reply::Exists(true)).unwrap();
    assert_eq!(step.command, Command::CheckIsDir("/tmp/out".to_string()));
    assert_eq!(request.advance(Reply::Exists(true)), None);
    assert_eq!(request.phase(), DispatchPhase::CheckingOutput);
}

#[test]
fn finished_request_takes_no_answer() {
    let (mut request, _) = begin(None, "/tmp/missing", "/tmp/out");
    request.advance(Reply::Exists(false)).unwrap();
    assert_eq!(request.phase(), DispatchPhase::Finished);
    assert_eq!(request.advance(Reply::Exists(true)), None);
    assert_eq!(request.advance(Reply::IsDir(true)), None);
    assert_eq!(request.advance(Reply::Removed(Ok(()))), None);
    assert_eq!(request.phase(), DispatchPhase::Finished);
}

#[test]
fn every_request_ends_with_exactly_one_terminal_event() {
    let requests = [
        (Some("zstd"), "/tmp/doc.txt", "/tmp/out"),
        (Some("nope"), "/tmp/doc.txt", "/tmp/out"),
        (Some("nope"), "/tmp/folder", "/tmp/out"),
        (None, "/tmp/folder", "/tmp/out"),
        (None, "/tmp/missing", "/tmp/out"),
        (None, "/tmp/doc.txt", "/tmp/missing"),
    ];
    for (algorithm, input, output) in requests {
        for exit in [0, 1] {
            let mut world = World::new();
            world.zstd_exit = ExitReport { success: exit == 0, code: Some(exit) };
            let out = carry_out(&mut world, algorithm, input, output);
            assert_eq!(terminal_count(&out.events), 1);
            let last = out.events.last().unwrap();
            assert!(last.event_type.terminal());
            match &out.result {
                Ok(()) => {
                    assert_eq!(last.event_type, EventType::Success);
                    assert_eq!(last.message, "Compression finished successfully");
                }
                Err(e) => {
                    assert_eq!(last.event_type, EventType::Error);
                    assert_eq!(last.message, e.message);
                }
            }
            assert!(!world.has("/tmp/.tmp_folder.tar"));
        }
    }
}
