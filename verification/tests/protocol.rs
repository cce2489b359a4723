use sidecar_engine::protocol::ProtocolLine;
use sidecar_engine::protocol::WorkerEvent;
use sidecar_engine::protocol::classify_stdout;
use sidecar_engine::protocol::decode_event;
use sidecar_engine::protocol::trim_str;

#[test]
fn success_line_payload_is_trimmed() {
    let r = classify_stdout("SUCCESS|  /out/audio.wav \t");
    assert_eq!(r, ProtocolLine::Success(String::from("/out/audio.wav")));
}

#[test]
fn error_line_message_is_trimmed() {
    let r = classify_stdout("ERROR| model not found ");
    assert_eq!(r, ProtocolLine::Failure(String::from("model not found")));
}

#[test]
fn empty_payload_after_prefix() {
    assert_eq!(classify_stdout("SUCCESS|"), ProtocolLine::Success(String::new()));
    assert_eq!(classify_stdout("SUCCESS|   "), ProtocolLine::Success(String::new()));
}

#[test]
fn prefix_must_sit_at_line_start() {
    let r = classify_stdout(" SUCCESS|x");
    assert_eq!(r, ProtocolLine::Log(String::from(" SUCCESS|x")));
    let r = classify_stdout("prefix ERROR|x");
    assert_eq!(r, ProtocolLine::Log(String::from("prefix ERROR|x")));
}

#[test]
fn prefix_match_is_case_sensitive() {
    let r = classify_stdout("success|x");
    assert_eq!(r, ProtocolLine::Log(String::from("success|x")));
    let r = classify_stdout("Error|x");
    assert_eq!(r, ProtocolLine::Log(String::from("Error|x")));
}

#[test]
fn truncated_prefix_is_a_log_line() {
    assert_eq!(classify_stdout("SUCCESS"), ProtocolLine::Log(String::from("SUCCESS")));
    assert_eq!(classify_stdout(""), ProtocolLine::Log(String::new()));
}

#[test]
fn classification_is_mutually_exclusive() {
    // One line gets exactly one variant: a success line is never a failure.
    let r = classify_stdout("SUCCESS|ERROR|x");
    assert_eq!(r, ProtocolLine::Success(String::from("ERROR|x")));
    let r = classify_stdout("ERROR|SUCCESS|x");
    assert_eq!(r, ProtocolLine::Failure(String::from("SUCCESS|x")));
}

#[test]
fn unicode_whitespace_is_trimmed() {
    let r = classify_stdout("SUCCESS|\u{3000}path\u{a0}");
    assert_eq!(r, ProtocolLine::Success(String::from("path")));
}

#[test]
fn trim_keeps_interior_whitespace() {
    assert_eq!(trim_str("  a b \r\n"), "a b");
    assert_eq!(trim_str("\u{2028}\u{205f}"), "");
    assert_eq!(trim_str("x"), "x");
}

#[test]
fn stderr_is_always_diagnostic() {
    let r = decode_event(&WorkerEvent::StderrLine(String::from("SUCCESS|not protocol")));
    assert_eq!(r, ProtocolLine::ErrorStream(String::from("SUCCESS|not protocol")));
}

#[test]
fn exit_and_closed_channel_decode_to_terminal_lines() {
    assert_eq!(
        decode_event(&WorkerEvent::Exited(Some(3))),
        ProtocolLine::Terminated(Some(3))
    );
    assert_eq!(decode_event(&WorkerEvent::Exited(None)), ProtocolLine::Terminated(None));
    assert_eq!(decode_event(&WorkerEvent::Closed), ProtocolLine::ChannelClosed);
}

#[test]
fn stdout_events_decode_through_classification() {
    let r = decode_event(&WorkerEvent::StdoutLine(String::from("SUCCESS| done ")));
    assert_eq!(r, ProtocolLine::Success(String::from("done")));
    let r = decode_event(&WorkerEvent::StdoutLine(String::from("Loading model...")));
    assert_eq!(r, ProtocolLine::Log(String::from("Loading model...")));
}
