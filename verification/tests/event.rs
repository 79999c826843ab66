use compress_dispatch::event::{CompressionEvent, EventType};
use compress_dispatch::percent::Percentage;

#[test]
fn kinds_have_their_wire_names() {
    assert_eq!(EventType::Status.as_str(), "status");
    assert_eq!(EventType::Progress.as_str(), "progress");
    assert_eq!(EventType::Success.as_str(), "success");
    assert_eq!(EventType::Error.as_str(), "error");
}

#[test]
fn success_and_error_are_terminal() {
    assert!(EventType::Success.terminal());
    assert!(EventType::Error.terminal());
    assert!(!EventType::Status.terminal());
    assert!(!EventType::Progress.terminal());
}

#[test]
fn status_event_holds_what_it_is_given() {
    let e = CompressionEvent::status("zstd", "Starting zstd compression...".to_string(), Some(Percentage::zero()));
    assert_eq!(e.algorithm, "zstd");
    assert_eq!(e.event_type, EventType::Status);
    assert_eq!(e.message, "Starting zstd compression...");
    assert_eq!(e.percentage.unwrap().as_str(), "0");
}

#[test]
fn progress_event_reads_the_percentage_of_its_line() {
    let e = CompressionEvent::progress("zstd", "doc.txt : 45.2%   (1 MiB)".to_string());
    assert_eq!(e.event_type, EventType::Progress);
    assert_eq!(e.message, "doc.txt : 45.2%   (1 MiB)");
    assert_eq!(e.percentage.unwrap().as_str(), "45.2");
    let e = CompressionEvent::progress("zstd", "warning: something".to_string());
    assert_eq!(e.percentage, None);
}

#[test]
fn success_event_is_complete() {
    let e = CompressionEvent::success("xz");
    assert_eq!(e.algorithm, "xz");
    assert_eq!(e.event_type, EventType::Success);
    assert_eq!(e.message, "Compression finished successfully");
    assert_eq!(e.percentage.unwrap().as_str().parse::<f32>().unwrap(), 100.0);
}

#[test]
fn error_event_has_no_percentage() {
    let e = CompressionEvent::error("xz", "Unknown algorithm 'xz'".to_string());
    assert_eq!(e.event_type, EventType::Error);
    assert_eq!(e.message, "Unknown algorithm 'xz'");
    assert_eq!(e.percentage, None);
}

#[test]
fn events_go_over_one_channel() {
    assert_eq!(compress_dispatch::event::CHANNEL, "compression-event");
}
