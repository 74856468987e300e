use flov::transcribe::{trim, Transcriber, TranscriberError};

#[test]
fn new_needs_the_model_file() {
    let t = Transcriber::new("models/ggml-base.bin".to_string(), Some("ru".to_string()), true)
        .unwrap();
    assert_eq!(t.model_path, "models/ggml-base.bin");
    assert_eq!(t.language.as_deref(), Some("ru"));
    match Transcriber::new("missing.bin".to_string(), None, false) {
        Err(TranscriberError::ModelNotFound { path }) => assert_eq!(path, "missing.bin"),
        other => panic!("unexpected {:?}", other),
    }
}

#[test]
fn segments_are_joined_and_trimmed() {
    let segs = vec![" Hello,".to_string(), " world. ".to_string(), "\n".to_string()];
    assert_eq!(Transcriber::transcript(&segs).as_deref(), Some("Hello, world."));
}

#[test]
fn blank_result_is_absent() {
    assert_eq!(Transcriber::transcript(&vec![]), None);
    let segs = vec![" ".to_string(), "\t\u{3000}".to_string(), "\u{a0}".to_string()];
    assert_eq!(Transcriber::transcript(&segs), None);
}

#[test]
fn trim_matches_std() {
    for s in ["", "  ", " a ", "\u{2003}x y\u{85}", "abc", "\u{200b}z\u{200b}", "\r\n q\t"] {
        assert_eq!(trim(s), s.trim());
    }
}
