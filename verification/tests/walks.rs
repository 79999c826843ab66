use compress_dispatch::dispatcher::{dispatch, Command, DispatchPhase, Reply};
use compress_dispatch::error::{ErrorDetail, ErrorKind};
use compress_dispatch::event::{CompressionEvent, EventType};
use compress_dispatch::process::ExitReport;
use compress_dispatch::progress::ProgressTracker;
use compress_dispatch::zstd::{run, ZstdCommand, ZstdPhase, ZstdReply};

struct Dice(u64);

impl Dice {
    fn roll(&mut self, sides: u64) -> u64 {
        self.0 = self.0.wrapping_mul(6364136223846793005).wrapping_add(1442695040888963407);
        (self.0 >> 33) % sides
    }
}

fn failure() -> ErrorDetail {
    ErrorDetail::new(ErrorKind::BackendExitFailure, "it failed".to_string())
}

fn any_reply(dice: &mut Dice) -> Reply {
    match dice.roll(10) {
        0 => Reply::Exists(false),
        1 | 2 => Reply::Exists(true),
        3 => Reply::IsDir(false),
        4 | 5 => Reply::IsDir(true),
        6 => Reply::Packed(if dice.roll(3) == 0 { Err(failure()) } else { Ok("/a/.tmp_d.tar".to_string()) }),
        7 => Reply::Compressed(if dice.roll(2) == 0 { Err(failure()) } else { Ok(()) }),
        8 => Reply::Removed(Ok(())),
        _ => Reply::Removed(Err("busy".to_string())),
    }
}

#[test]
fn no_walk_breaks_the_order_of_a_request() {
    let mut dice = Dice(7);
    for walk in 0..3000 {
        let algorithm = match walk % 4 {
            0 => None,
            1 => Some("ZSTD".to_string()),
            2 => Some("7Zip".to_string()),
            _ => Some("lzma".to_string()),
        };
        let known = walk % 4 != 3;
        let (mut request, first) =
            dispatch(algorithm, vec!["-1".to_string()], "/a/d".to_string(), "/out".to_string());
        let mut commands = vec![first.command];
        let mut events: Vec<CompressionEvent> = first.events;
        let mut warnings = 0;
        let mut kind: Option<bool> = None;
        for _ in 0..40 {
            let reply = any_reply(&mut dice);
            let before = request.phase();
            let is_kind_probe = before == DispatchPhase::ProbingInput;
            let told_dir = matches!(reply, Reply::IsDir(true));
            let told_kind = matches!(reply, Reply::IsDir(_));
            match request.advance(reply) {
                Some(step) => {
                    assert_ne!(before, DispatchPhase::Finished);
                    if is_kind_probe && told_kind {
                        kind = Some(told_dir);
                    }
                    commands.push(step.command);
                    events.extend(step.events);
                    warnings += step.warning.iter().count();
                }
                None => assert_eq!(request.phase(), before),
            }
        }
        let done = matches!(commands.last().unwrap(), Command::Done(_));
        assert_eq!(done, request.phase() == DispatchPhase::Finished);
        let terminals = events.iter().filter(|e| e.event_type.terminal()).count();
        assert_eq!(terminals, if done { 1 } else { 0 });
        if done {
            assert!(events.last().unwrap().event_type.terminal());
        }
        for (i, command) in commands.iter().enumerate() {
            match command {
                Command::Done(result) => {
                    assert_eq!(i, commands.len() - 1);
                    let last = events.last().unwrap();
                    match result {
                        Ok(()) => assert_eq!(last.event_type, EventType::Success),
                        Err(e) => {
                            assert_eq!(last.event_type, EventType::Error);
                            assert_eq!(last.message, e.message);
                        }
                    }
                    if !known {
                        assert!(result.is_err());
                    }
                }
                Command::Pack(path) => {
                    assert_eq!(kind, Some(true));
                    assert_eq!(path, "/a/d");
                    assert_eq!(i, 3);
                }
                Command::Compress { input_path, .. } => {
                    assert!(known);
                    match kind {
                        Some(true) => {
                            assert!(matches!(commands[i - 1], Command::Pack(_)));
                            assert_eq!(input_path, "/a/.tmp_d.tar");
                        }
                        _ => assert_eq!(input_path, "/a/d"),
                    }
                }
                Command::RemoveFile(path) => {
                    assert_eq!(kind, Some(true));
                    assert_eq!(path, "/a/.tmp_d.tar");
                    assert!(commands[..i].iter().any(|c| matches!(c, Command::Pack(_))));
                }
                Command::CheckExists(_) | Command::CheckIsDir(_) => assert!(i < 3),
            }
        }
        if done && commands.iter().any(|c| matches!(c, Command::Compress { .. } | Command::RemoveFile(_))) && kind == Some(true) {
            assert!(matches!(commands[commands.len() - 2], Command::RemoveFile(_)));
        }
        assert!(warnings <= 1);
    }
}

fn any_zstd_reply(dice: &mut Dice, stream: &mut Vec<u8>, ended: &mut bool, phase: ZstdPhase) -> ZstdReply {
    match dice.roll(12) {
        0 => ZstdReply::Exists(false),
        1 | 2 => ZstdReply::Exists(true),
        3 => ZstdReply::SpawnFailed { not_found: dice.roll(2) == 0, reason: "no".to_string() },
        4 => ZstdReply::Spawned { stderr: dice.roll(8) != 0, stdout: dice.roll(8) != 0 },
        5 | 6 | 7 => {
            let alphabet = b"ab 19.%\r\n\t";
            let mut chunk = Vec::new();
            for _ in 0..dice.roll(9) {
                chunk.push(alphabet[dice.roll(alphabet.len() as u64) as usize]);
            }
            if phase == ZstdPhase::Reading {
                if chunk.is_empty() {
                    *ended = true;
                }
                stream.extend(&chunk);
            }
            ZstdReply::Read(chunk)
        }
        8 => ZstdReply::ReadFailed { interrupted: dice.roll(3) != 0, reason: "eio".to_string() },
        9 => ZstdReply::Drained,
        10 => ZstdReply::WaitFailed("gone".to_string()),
        _ => ZstdReply::Exited(ExitReport { success: dice.roll(2) == 0, code: Some(3) }),
    }
}

#[test]
fn no_walk_changes_what_a_stream_reports() {
    let mut dice = Dice(11);
    for _ in 0..3000 {
        let (mut session, first) = run(Vec::new(), "/a/f".to_string(), "/out".to_string());
        let mut commands = vec![first.command];
        let mut events: Vec<CompressionEvent> = first.events;
        let mut stream = Vec::new();
        let mut ended = false;
        for _ in 0..60 {
            let before = session.phase();
            let reply = any_zstd_reply(&mut dice, &mut stream, &mut ended, before);
            match session.advance_at(reply, "20240131_235959") {
                Some(step) => {
                    assert_ne!(before, ZstdPhase::Finished);
                    commands.push(step.command);
                    events.extend(step.events);
                }
                None => assert_eq!(session.phase(), before),
            }
        }
        let mut tracker = ProgressTracker::new();
        let mut expected = tracker.feed(&stream);
        if ended {
            expected.extend(tracker.finish());
        }
        assert_eq!(events, expected);
        let spawns: Vec<usize> = commands
            .iter()
            .enumerate()
            .filter(|(_, c)| matches!(c, ZstdCommand::Spawn(_)))
            .map(|(i, _)| i)
            .collect();
        assert!(spawns.is_empty() || spawns == vec![2]);
        for (i, command) in commands.iter().enumerate() {
            if let ZstdCommand::Done(result) = command {
                assert_eq!(i, commands.len() - 1);
                assert_eq!(session.phase(), ZstdPhase::Finished);
                if result.is_ok() {
                    assert!(ended);
                }
                if let Err(e) = result {
                    if e.kind == ErrorKind::BackendExitFailure {
                        assert_eq!(
                            e.message,
                            format!("zstd exited with status Some(3)\n\nstderr:\n{}", tracker.log())
                        );
                    }
                }
            }
        }
    }
}
