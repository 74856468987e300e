use flov::protocol::{command_from_type, event_line, parse_command, ControlCommand, ProtocolEvent};

#[test]
fn fixed_event_lines() {
    assert_eq!(event_line(&ProtocolEvent::RecordingStarted), r#"{"type":"recording_started"}"#);
    assert_eq!(event_line(&ProtocolEvent::RecordingStopped), r#"{"type":"recording_stopped"}"#);
    assert_eq!(event_line(&ProtocolEvent::Transcribing), r#"{"type":"transcribing"}"#);
    assert_eq!(event_line(&ProtocolEvent::Pong), r#"{"type":"pong"}"#);
}

#[test]
fn transcription_line_escapes_text() {
    let line = event_line(&ProtocolEvent::Transcription("say \"hi\"\nпривет".to_string()));
    assert_eq!(line, "{\"text\":\"say \\\"hi\\\"\\nпривет\",\"type\":\"transcription\"}");
    let v: serde_json::Value = serde_json::from_str(&line).unwrap();
    assert_eq!(v["text"], "say \"hi\"\nпривет");
}

#[test]
fn error_line_carries_message() {
    let line = event_line(&ProtocolEvent::Error("Failed to load".to_string()));
    assert_eq!(line, r#"{"message":"Failed to load","type":"error"}"#);
}

#[test]
fn commands_from_lines() {
    assert_eq!(parse_command(r#"{"type":"ping"}"#), ControlCommand::Ping);
    assert_eq!(parse_command(r#"{"type": "quit", "reason": 1}"#), ControlCommand::Quit);
    assert_eq!(parse_command(r#"{"type":"status"}"#), ControlCommand::Ignore);
    assert_eq!(parse_command(r#"{"type":7}"#), ControlCommand::Ignore);
    assert_eq!(parse_command(r#"{"kind":"ping"}"#), ControlCommand::Ignore);
    assert_eq!(parse_command(r#"["ping"]"#), ControlCommand::Ignore);
    assert_eq!(parse_command("ping"), ControlCommand::Ignore);
    assert_eq!(parse_command(""), ControlCommand::Ignore);
}

#[test]
fn commands_from_type_member() {
    assert_eq!(command_from_type(Some("ping".to_string())), ControlCommand::Ping);
    assert_eq!(command_from_type(Some("quit".to_string())), ControlCommand::Quit);
    assert_eq!(command_from_type(Some("Ping".to_string())), ControlCommand::Ignore);
    assert_eq!(command_from_type(None), ControlCommand::Ignore);
}
