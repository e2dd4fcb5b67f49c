//! Classification of raw input events into clicks and key presses, for the
//! native event tap and for the cross-platform hook, and the permission checks
//! of the cross-platform hook.

use vstd::prelude::*;
use crate::counters::{CounterStore, EventKind, step};

verus! {

/// Event-tap code of a key going down.
pub const KEY_DOWN: u32 = 10;

/// Event-tap code of the left mouse button going down.
pub const LEFT_MOUSE_DOWN: u32 = 1;

/// Event-tap code of the right mouse button going down.
pub const RIGHT_MOUSE_DOWN: u32 = 3;

/// Event-tap code of any other mouse button going down.
pub const OTHER_MOUSE_DOWN: u32 = 25;

/// What an event-tap code counts as, if anything.
pub open spec fn tap_kind(code: u32) -> Option<EventKind> {
    if code == KEY_DOWN {
        Some(EventKind::Key)
    } else if code == LEFT_MOUSE_DOWN || code == RIGHT_MOUSE_DOWN || code == OTHER_MOUSE_DOWN {
        Some(EventKind::Click)
    } else {
        None
    }
}

/// Classifies an event-tap code: key-down is a key, any mouse-button-down is a
/// click, everything else is ignored.
pub fn classify_tap_event(code: u32) -> (r: Option<EventKind>)
    ensures
        r == tap_kind(code),
{
    if code == KEY_DOWN {
        Some(EventKind::Key)
    } else if code == LEFT_MOUSE_DOWN || code == RIGHT_MOUSE_DOWN || code == OTHER_MOUSE_DOWN {
        Some(EventKind::Click)
    } else {
        None
    }
}

/// The set of event types the tap asks for, as a bit mask over their codes:
/// bit `c` is set exactly when code `c` is counted.
pub fn tap_event_mask() -> (r: u64)
    ensures
        forall|c: u64| c < 64 ==> (((r >> c) & 1u64) == 1u64 <==> (#[trigger] tap_kind(c as u32)) is Some),
{
    let r: u64 = (1u64 << KEY_DOWN) | (1u64 << LEFT_MOUSE_DOWN) | (1u64 << RIGHT_MOUSE_DOWN) | (1u64
        << OTHER_MOUSE_DOWN);
    assert(r == 0x0200_040Au64) by (bit_vector)
        requires
            r == (1u64 << 10u64) | (1u64 << 1u64) | (1u64 << 3u64) | (1u64 << 25u64),
    ;
    assert forall|c: u64| c < 64 implies (((r >> c) & 1u64) == 1u64 <==> (c == 10 || c == 1 || c
        == 3 || c == 25)) by {
        assert(c < 64 ==> (((0x0200_040Au64 >> c) & 1u64) == 1u64 <==> (c == 10 || c == 1 || c == 3
            || c == 25))) by (bit_vector);
    }
    r
}

/// The event types of the cross-platform hook, without their payloads.
#[derive(Clone, Copy, Debug, PartialEq, Eq, Structural)]
pub enum HookEvent {
    KeyPress,
    KeyRelease,
    ButtonPress,
    ButtonRelease,
    MouseMove,
    Wheel,
}

/// What a hook event counts as, if anything.
pub open spec fn hook_kind(e: HookEvent) -> Option<EventKind> {
    match e {
        HookEvent::ButtonPress => Some(EventKind::Click),
        HookEvent::KeyPress => Some(EventKind::Key),
        _ => None,
    }
}

/// Classifies a hook event: a button press is a click, a key press is a key,
/// everything else is ignored.
pub fn classify_hook_event(e: HookEvent) -> (r: Option<EventKind>)
    ensures
        r == hook_kind(e),
{
    match e {
        HookEvent::ButtonPress => Some(EventKind::Click),
        HookEvent::KeyPress => Some(EventKind::Key),
        _ => None,
    }
}

impl CounterStore {
    /// The event-tap callback's work: classify the code and count it.
    pub fn record_tap_event(&mut self, code: u32)
        ensures
            final(self)@ == match tap_kind(code) {
                Some(k) => step(old(self)@, k),
                None => old(self)@,
            },
    {
        let kind = classify_tap_event(code);
        self.record_classified(kind);
    }

    /// The hook callback's work: classify the event and count it.
    pub fn record_hook_event(&mut self, e: HookEvent)
        ensures
            final(self)@ == match hook_kind(e) {
                Some(k) => step(old(self)@, k),
                None => old(self)@,
            },
    {
        let kind = classify_hook_event(e);
        self.record_classified(kind);
    }
}

/// Whether input events may be observed. The cross-platform hook needs no grant.
pub fn check_permission() -> (r: bool)
    ensures
        r,
{
    true
}

/// Asks for the right to observe input events. The cross-platform hook needs
/// no grant, so it is always held.
pub fn request_permission() -> (r: bool)
    ensures
        r,
{
    true
}

/// Whether the screen may be captured. The cross-platform path needs no grant.
pub fn check_screen_recording_permission() -> (r: bool)
    ensures
        r,
{
    true
}

/// Asks for the right to capture the screen. The cross-platform path needs no
/// grant, so it is always held.
pub fn request_screen_recording_permission() -> (r: bool)
    ensures
        r,
{
    true
}

} // verus!
