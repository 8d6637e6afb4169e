use simple_translate::capture::{
    capture_step, finalize_capture, CaptureAction, CaptureEvent, CaptureState, ClipboardRead,
};

#[test]
fn long_capture_is_truncated_to_one_thousand_characters() {
    let long: String = "a".repeat(1500);
    let out = finalize_capture(long).expect("expected text");
    assert_eq!(out.chars().count(), 1000);
}

#[test]
fn truncation_counts_characters_not_bytes() {
    let long: String = "你".repeat(1500);
    let out = finalize_capture(long).expect("expected text");
    assert_eq!(out.chars().count(), 1000);
    assert_eq!(out, "你".repeat(1000));
}

#[test]
fn short_capture_is_kept_whole() {
    let text: String = "b".repeat(1000);
    let out = finalize_capture(text.clone()).expect("expected text");
    assert_eq!(out, text);
}

#[test]
fn blank_capture_yields_nothing() {
    assert!(finalize_capture(String::new()).is_none());
    assert!(finalize_capture("   \t\r\n".to_string()).is_none());
    assert!(finalize_capture("\u{00A0}\u{2003}\u{3000}".to_string()).is_none());
}

#[test]
fn blank_clipboard_is_restored_and_capture_yields_nothing() {
    let state = CaptureState::ReadingCurrent { previous: Some("keep me".to_string()) };
    let event = CaptureEvent::ClipboardRead { read: ClipboardRead::Text("   ".to_string()) };
    let (state, action) = capture_step(state, event);
    match action {
        CaptureAction::WriteClipboard { text } => assert_eq!(text, "keep me"),
        _ => panic!("expected the snapshot to be written back"),
    }
    let (state, action) = capture_step(state, CaptureEvent::Restored);
    match action {
        CaptureAction::Finish { outcome } => assert!(outcome.is_none()),
        _ => panic!("expected the capture to finish"),
    }
    match state {
        CaptureState::Done { outcome } => assert!(outcome.is_none()),
        _ => panic!("expected the capture to be done"),
    }
}

#[test]
fn full_run_captures_and_restores() {
    let (s, a) = capture_step(CaptureState::Start, CaptureEvent::Begin);
    assert!(matches!(a, CaptureAction::ReadClipboard));
    let (s, a) = capture_step(
        s,
        CaptureEvent::ClipboardRead { read: ClipboardRead::Text("old".to_string()) },
    );
    assert!(matches!(a, CaptureAction::SendCopy));
    let (s, a) = capture_step(s, CaptureEvent::CopySent { ok: true });
    match a {
        CaptureAction::Wait { millis } => assert_eq!(millis, 50),
        _ => panic!("expected the fixed wait"),
    }
    let (s, a) = capture_step(s, CaptureEvent::Waited);
    assert!(matches!(a, CaptureAction::ReadClipboard));
    let (s, a) = capture_step(
        s,
        CaptureEvent::ClipboardRead { read: ClipboardRead::Text("selected text".to_string()) },
    );
    match a {
        CaptureAction::WriteClipboard { text } => assert_eq!(text, "old"),
        _ => panic!("expected the snapshot to be written back"),
    }
    let (_, a) = capture_step(s, CaptureEvent::Restored);
    match a {
        CaptureAction::Finish { outcome } => assert_eq!(outcome.unwrap(), "selected text"),
        _ => panic!("expected the capture to finish"),
    }
}

#[test]
fn empty_snapshot_skips_the_restore() {
    let state = CaptureState::ReadingCurrent { previous: None };
    let event = CaptureEvent::ClipboardRead { read: ClipboardRead::Text("picked".to_string()) };
    let (_, action) = capture_step(state, event);
    match action {
        CaptureAction::Finish { outcome } => assert_eq!(outcome.unwrap(), "picked"),
        _ => panic!("expected the capture to finish without a restore"),
    }
}

#[test]
fn clipboard_failure_before_the_copy_aborts() {
    let (s, a) = capture_step(
        CaptureState::ReadingPrevious,
        CaptureEvent::ClipboardRead { read: ClipboardRead::Failed },
    );
    assert!(matches!(a, CaptureAction::Finish { outcome: None }));
    assert!(matches!(s, CaptureState::Done { outcome: None }));
}

#[test]
fn keystroke_failure_aborts() {
    let state = CaptureState::SendingCopy { previous: Some("old".to_string()) };
    let (_, a) = capture_step(state, CaptureEvent::CopySent { ok: false });
    assert!(matches!(a, CaptureAction::Finish { outcome: None }));
}

#[test]
fn failed_post_copy_read_still_restores() {
    let state = CaptureState::ReadingCurrent { previous: Some("old".to_string()) };
    let (s, a) = capture_step(state, CaptureEvent::ClipboardRead { read: ClipboardRead::Failed });
    match a {
        CaptureAction::WriteClipboard { text } => assert_eq!(text, "old"),
        _ => panic!("expected the snapshot to be written back"),
    }
    let (_, a) = capture_step(s, CaptureEvent::Restored);
    assert!(matches!(a, CaptureAction::Finish { outcome: None }));
}
