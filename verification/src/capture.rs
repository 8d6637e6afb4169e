//! The selection-capture protocol: snapshot the clipboard, send a copy
//! keystroke, wait briefly, read the clipboard back, restore the snapshot,
//! and finalize the captured text.
//!
//! The clipboard and keystroke operations themselves are performed by the
//! caller, which drives the protocol as a state machine: it feeds each
//! operation's result back as a `CaptureEvent` and performs the returned
//! `CaptureAction`, until the action is `Finish`. An event that does not
//! belong to the current state aborts the capture with no text.
use vstd::prelude::*;
use crate::text::{is_blank, is_blank_str, truncated, truncate_chars};
use crate::{CAPTURE_LIMIT, CAPTURE_WAIT_MS};

verus! {

/// What a clipboard read produced: text, no text available, or a failure
/// of the clipboard itself.
pub enum ClipboardRead {
    Text(String),
    Empty,
    Failed,
}

/// Where the capture protocol stands.
pub enum CaptureState {
    /// Nothing has happened yet.
    Start,
    /// The pre-copy clipboard snapshot is being read.
    ReadingPrevious,
    /// The copy keystroke is being sent; `previous` is the snapshot.
    SendingCopy { previous: Option<String> },
    /// The fixed interval after the keystroke is passing.
    Waiting { previous: Option<String> },
    /// The post-copy clipboard is being read.
    ReadingCurrent { previous: Option<String> },
    /// The snapshot is being written back (best-effort).
    Restoring { snapshot: String, outcome: Option<String> },
    /// The capture is over.
    Done { outcome: Option<String> },
}

/// The operation the caller must perform next.
pub enum CaptureAction {
    ReadClipboard,
    SendCopy,
    Wait { millis: u64 },
    WriteClipboard { text: String },
    Finish { outcome: Option<String> },
}

/// The result of the operation the caller performed.
pub enum CaptureEvent {
    Begin,
    ClipboardRead { read: ClipboardRead },
    CopySent { ok: bool },
    Waited,
    Restored,
}

/// The finalized capture: nothing when the text is blank, otherwise the
/// text truncated to the capture limit, counted by character.
pub open spec fn finalize_spec(s: Seq<char>) -> Option<Seq<char>> {
    if is_blank(s) {
        None
    } else {
        Some(truncated(s, CAPTURE_LIMIT as nat))
    }
}

/// What a post-copy clipboard read yields as the capture's outcome: a
/// failed or empty read yields nothing, text is finalized.
pub open spec fn read_outcome(read: ClipboardRead) -> Option<Seq<char>> {
    match read {
        ClipboardRead::Text(t) => finalize_spec(t@),
        ClipboardRead::Empty => None,
        ClipboardRead::Failed => None,
    }
}

/// The view of an optional text.
pub open spec fn opt_text_view(o: Option<String>) -> Option<Seq<char>> {
    match o {
        Some(s) => Some(s@),
        None => None,
    }
}

/// An aborted capture: done, with no text.
pub open spec fn capture_aborted(s2: CaptureState, a: CaptureAction) -> bool {
    &&& s2 == (CaptureState::Done { outcome: None })
    &&& a == (CaptureAction::Finish { outcome: None })
}

/// The transition relation of the capture protocol.
///
/// A clipboard failure before the copy keystroke aborts; once the snapshot
/// was taken and the keystroke sent, the snapshot is written back whatever
/// the post-copy read produced, and only then does the capture finish.
pub open spec fn step_spec(
    s: CaptureState,
    e: CaptureEvent,
    s2: CaptureState,
    a: CaptureAction,
) -> bool {
    match (s, e) {
        (CaptureState::Start, CaptureEvent::Begin) => {
            &&& s2 == CaptureState::ReadingPrevious
            &&& a == CaptureAction::ReadClipboard
        },
        (CaptureState::ReadingPrevious, CaptureEvent::ClipboardRead { read }) => match read {
            ClipboardRead::Text(t) => {
                &&& s2 == (CaptureState::SendingCopy { previous: Some(t) })
                &&& a == CaptureAction::SendCopy
            },
            ClipboardRead::Empty => {
                &&& s2 == (CaptureState::SendingCopy { previous: None })
                &&& a == CaptureAction::SendCopy
            },
            ClipboardRead::Failed => capture_aborted(s2, a),
        },
        (CaptureState::SendingCopy { previous }, CaptureEvent::CopySent { ok }) => {
            if ok {
                &&& s2 == (CaptureState::Waiting { previous })
                &&& a == (CaptureAction::Wait { millis: CAPTURE_WAIT_MS })
            } else {
                capture_aborted(s2, a)
            }
        },
        (CaptureState::Waiting { previous }, CaptureEvent::Waited) => {
            &&& s2 == (CaptureState::ReadingCurrent { previous })
            &&& a == CaptureAction::ReadClipboard
        },
        (CaptureState::ReadingCurrent { previous }, CaptureEvent::ClipboardRead { read }) => {
            let out = read_outcome(read);
            match previous {
                Some(p) => {
                    &&& s2 matches CaptureState::Restoring { snapshot: p2, outcome: o } && p2 == p
                        && opt_text_view(o) == out
                    &&& a == (CaptureAction::WriteClipboard { text: p })
                },
                None => {
                    &&& s2 matches CaptureState::Done { outcome: o } && opt_text_view(o) == out
                    &&& a matches CaptureAction::Finish { outcome: o2 } && opt_text_view(o2) == out
                },
            }
        },
        (CaptureState::Restoring { snapshot: _, outcome }, CaptureEvent::Restored) => {
            &&& s2 == (CaptureState::Done { outcome })
            &&& a == (CaptureAction::Finish { outcome })
        },
        _ => capture_aborted(s2, a),
    }
}

fn abort_step() -> (r: (CaptureState, CaptureAction))
    ensures
        capture_aborted(r.0, r.1),
{
    (CaptureState::Done { outcome: None }, CaptureAction::Finish { outcome: None })
}

fn clone_opt_text(o: &Option<String>) -> (r: Option<String>)
    ensures
        r == *o,
{
    match o {
        Some(s) => Some(s.clone()),
        None => None,
    }
}

/// Finalizes a post-copy clipboard text: nothing when it is empty or
/// whitespace-only, otherwise the text truncated to the capture limit,
/// counted by character rather than byte.
pub fn finalize_capture(current: String) -> (r: Option<String>)
    ensures
        opt_text_view(r) == finalize_spec(current@),
{
    if is_blank_str(current.as_str()) {
        None
    } else {
        Some(truncate_chars(current, CAPTURE_LIMIT))
    }
}

fn finalize_read(read: ClipboardRead) -> (r: Option<String>)
    ensures
        opt_text_view(r) == read_outcome(read),
{
    match read {
        ClipboardRead::Text(t) => finalize_capture(t),
        ClipboardRead::Empty => None,
        ClipboardRead::Failed => None,
    }
}

/// One step of the capture protocol: the next state and the operation the
/// caller must perform.
pub fn capture_step(state: CaptureState, event: CaptureEvent) -> (r: (CaptureState, CaptureAction))
    ensures
        step_spec(state, event, r.0, r.1),
{
    match (state, event) {
        (CaptureState::Start, CaptureEvent::Begin) => (
            CaptureState::ReadingPrevious,
            CaptureAction::ReadClipboard,
        ),
        (CaptureState::ReadingPrevious, CaptureEvent::ClipboardRead { read }) => match read {
            ClipboardRead::Text(t) => (
                CaptureState::SendingCopy { previous: Some(t) },
                CaptureAction::SendCopy,
            ),
            ClipboardRead::Empty => (
                CaptureState::SendingCopy { previous: None },
                CaptureAction::SendCopy,
            ),
            ClipboardRead::Failed => abort_step(),
        },
        (CaptureState::SendingCopy { previous }, CaptureEvent::CopySent { ok }) => {
            if ok {
                (CaptureState::Waiting { previous }, CaptureAction::Wait { millis: CAPTURE_WAIT_MS })
            } else {
                abort_step()
            }
        },
        (CaptureState::Waiting { previous }, CaptureEvent::Waited) => (
            CaptureState::ReadingCurrent { previous },
            CaptureAction::ReadClipboard,
        ),
        (CaptureState::ReadingCurrent { previous }, CaptureEvent::ClipboardRead { read }) => {
            let outcome = finalize_read(read);
            match previous {
                Some(p) => {
                    let text = p.clone();
                    (
                        CaptureState::Restoring { snapshot: p, outcome },
                        CaptureAction::WriteClipboard { text },
                    )
                },
                None => {
                    let o2 = clone_opt_text(&outcome);
                    (CaptureState::Done { outcome }, CaptureAction::Finish { outcome: o2 })
                },
            }
        },
        (CaptureState::Restoring { snapshot: _, outcome }, CaptureEvent::Restored) => {
            let o2 = clone_opt_text(&outcome);
            (CaptureState::Done { outcome }, CaptureAction::Finish { outcome: o2 })
        },
        (_, _) => abort_step(),
    }
}

/// Law: a non-blank captured text is truncated to exactly the capture
/// limit when it is longer, counted by character.
pub proof fn lemma_capture_truncation(s: Seq<char>)
    requires
        !is_blank(s),
        s.len() >= CAPTURE_LIMIT,
    ensures
        finalize_spec(s) matches Some(t) && t.len() == CAPTURE_LIMIT && t == s.take(
            CAPTURE_LIMIT as int,
        ),
{
    if s.len() == CAPTURE_LIMIT {
        assert(s.take(CAPTURE_LIMIT as int) =~= s);
    }
}

/// Law: when the post-copy clipboard reads back blank (or cannot be read)
/// and a snapshot was taken, the capture writes the snapshot back and then
/// finishes with no text.
pub proof fn lemma_blank_capture_restores(
    previous: String,
    read: ClipboardRead,
    s2: CaptureState,
    a: CaptureAction,
    s3: CaptureState,
    a2: CaptureAction,
)
    requires
        read matches ClipboardRead::Text(t) ==> is_blank(t@),
        step_spec(
            CaptureState::ReadingCurrent { previous: Some(previous) },
            CaptureEvent::ClipboardRead { read },
            s2,
            a,
        ),
        step_spec(s2, CaptureEvent::Restored, s3, a2),
    ensures
        a == (CaptureAction::WriteClipboard { text: previous }),
        s3 == (CaptureState::Done { outcome: None }),
        a2 == (CaptureAction::Finish { outcome: None }),
{
    assert(read_outcome(read) is None);
}

} // verus!
