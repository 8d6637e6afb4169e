//! The dispatch path behind the hotkey trigger: the debouncer, the
//! last-pointer-position tracker, and the decisions the orchestrator takes
//! before and after a capture.
use vstd::prelude::*;
use crate::DEBOUNCE_WINDOW_MS;

verus! {

/// Lets at most one dispatch proceed per debounce window.
/// Timestamps are milliseconds on a monotonic clock.
pub struct Debouncer {
    /// When a dispatch last proceeded, if ever.
    pub last: Option<u64>,
}

/// Whether a trigger at `now` may proceed, given when one last proceeded.
pub open spec fn debounce_accepts(last: Option<u64>, now: u64) -> bool {
    match last {
        None => true,
        Some(t) => now - t >= DEBOUNCE_WINDOW_MS,
    }
}

impl Debouncer {
    /// A debouncer that has never let a dispatch through.
    pub fn new() -> (r: Debouncer)
        ensures
            r.last is None,
    {
        Debouncer { last: None }
    }

    /// Lets the trigger through when no dispatch has proceeded yet or the
    /// window has elapsed, recording the time; otherwise rejects and
    /// records nothing. Rejected triggers are dropped, never deferred.
    pub fn should_proceed(&mut self, now_ms: u64) -> (r: bool)
        ensures
            r == debounce_accepts(old(self).last, now_ms),
            r ==> final (self).last == Some(now_ms),
            !r ==> final (self).last == old(self).last,
    {
        let accept = match self.last {
            None => true,
            Some(t) => now_ms >= t && now_ms - t >= DEBOUNCE_WINDOW_MS,
        };
        if accept {
            self.last = Some(now_ms);
        }
        accept
    }
}

/// Law: once a trigger at `t1` has been accepted, any trigger strictly
/// inside the debounce window after it is rejected.
pub proof fn lemma_debounce_window(t1: u64, t2: u64)
    requires
        t2 - t1 < DEBOUNCE_WINDOW_MS,
    ensures
        !debounce_accepts(Some(t1), t2),
{
}

/// Law: a trigger a full window or more after an accepted one is accepted.
pub proof fn lemma_debounce_reopens(t1: u64, t2: u64)
    requires
        t2 - t1 >= DEBOUNCE_WINDOW_MS,
    ensures
        debounce_accepts(Some(t1), t2),
{
}

/// A pointer event as the tracker sees it.
#[derive(Clone, Copy, PartialEq, Eq, Structural, Debug)]
pub enum PointerEvent {
    /// The primary button was released.
    PrimaryRelease,
    /// Any other pointer activity.
    Other,
}

/// The last observed pointer-release coordinate; `(0, 0)` until a release
/// has been seen.
pub struct PointerTracker {
    pub x: i32,
    pub y: i32,
}

impl PointerTracker {
    /// A tracker that has seen nothing yet: the sentinel `(0, 0)`.
    pub fn new() -> (r: PointerTracker)
        ensures
            r.x == 0,
            r.y == 0,
    {
        PointerTracker { x: 0, y: 0 }
    }

    /// Overwrites the position on a primary-button release whose coordinate
    /// query succeeded; every other event, and a failed query, is skipped
    /// silently.
    pub fn on_event(&mut self, event: PointerEvent, location: Option<(i32, i32)>)
        ensures
            location matches Some(p) ==> (event is PrimaryRelease ==> final (self).x == p.0
                && final (self).y == p.1),
            event is Other || location is None ==> *final (self) == *old(self),
    {
        match event {
            PointerEvent::PrimaryRelease => {
                match location {
                    Some(p) => {
                        self.x = p.0;
                        self.y = p.1;
                    },
                    None => {},
                }
            },
            PointerEvent::Other => {},
        }
    }

    /// The last recorded coordinate.
    pub fn last_position(&self) -> (r: (i32, i32))
        ensures
            r == (self.x, self.y),
    {
        (self.x, self.y)
    }
}

/// The coordinate a dispatch uses: the tracked position, unless it is still
/// the uninitialized sentinel `(0, 0)`, in which case the live query result.
pub open spec fn resolved_position(last: (i32, i32), live: (i32, i32)) -> (i32, i32) {
    if last.0 == 0 && last.1 == 0 {
        live
    } else {
        last
    }
}

/// Picks the coordinate for a dispatch; falls back to the live position
/// only when the tracked one is the sentinel.
pub fn resolve_position(last: (i32, i32), live: (i32, i32)) -> (r: (i32, i32))
    ensures
        r == resolved_position(last, live),
{
    if last.0 == 0 && last.1 == 0 {
        live
    } else {
        last
    }
}

/// The decision taken when the hotkey fires: consult the debouncer, and
/// when it lets the trigger through, fix the coordinate the capture result
/// will be emitted at.
pub fn on_trigger(debouncer: &mut Debouncer, now_ms: u64, last: (i32, i32), live: (i32, i32)) -> (r:
    Option<(i32, i32)>)
    ensures
        debounce_accepts(old(debouncer).last, now_ms) ==> r == Some(resolved_position(last, live))
            && final (debouncer).last == Some(now_ms),
        !debounce_accepts(old(debouncer).last, now_ms) ==> r is None && final (debouncer).last == old(
            debouncer,
        ).last,
{
    if debouncer.should_proceed(now_ms) {
        Some(resolve_position(last, live))
    } else {
        None
    }
}

/// What the orchestrator hands to the user-interface collaborator.
pub struct TranslatePayload {
    pub text: String,
    pub x: i32,
    pub y: i32,
}

/// Builds the event payload when the capture yielded text; a capture that
/// yielded nothing aborts the dispatch silently, with no emission.
pub fn emission(captured: Option<String>, position: (i32, i32)) -> (r: Option<TranslatePayload>)
    ensures
        captured matches Some(t) ==> r matches Some(p) && p.text == t && p.x == position.0 && p.y
            == position.1,
        captured is None ==> r is None,
{
    match captured {
        Some(t) => Some(TranslatePayload { text: t, x: position.0, y: position.1 }),
        None => None,
    }
}

/// Whether the settings window opens at startup: only on a first run where
/// the key is missing or the stored shortcut failed to register.
pub fn open_settings_on_startup(first_run: bool, api_key_empty: bool, shortcut_failed: bool) -> (r:
    bool)
    ensures
        r == (first_run && (api_key_empty || shortcut_failed)),
{
    first_run && (api_key_empty || shortcut_failed)
}

} // verus!
