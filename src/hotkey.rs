//! The hotkey chord: a pure decision for each keyboard event, and the
//! pair of shared flags that the keyboard filter and the pipeline
//! read and write.

use std::sync::atomic::{AtomicBool, Ordering};
use std::sync::Arc;
use vstd::prelude::*;

verus! {

/// Virtual-key code of the left Windows key.
pub const VK_LWIN: u16 = 0x5B;

/// Virtual-key code of the right Windows key.
pub const VK_RWIN: u16 = 0x5C;

/// The kind of keyboard message the filter was handed.
#[derive(Clone, Copy, Debug, PartialEq, Eq, Structural)]
pub enum KeyDirection {
    /// A key (or system key) went down.
    Down,
    /// A key (or system key) came up.
    Up,
    /// Any other keyboard message.
    Other,
}

/// One keyboard event as the filter sees it: its direction, the
/// virtual-key code, and whether Ctrl is down at that moment.
#[derive(Clone, Copy, Debug, PartialEq, Eq, Structural)]
pub struct KeyEvent {
    pub direction: KeyDirection,
    pub vk: u16,
    pub ctrl_down: bool,
}

/// The two signals shared between the keyboard filter and the pipeline:
/// `held` while the chord is down, `session_active` while a recording
/// cycle is in flight.
#[derive(Clone, Copy, Debug, PartialEq, Eq, Structural)]
pub struct HotkeySignals {
    pub held: bool,
    pub session_active: bool,
}

/// What the filter does with one event: the signals afterwards, and
/// whether the event is swallowed instead of being passed on.
#[derive(Clone, Copy, Debug, PartialEq, Eq, Structural)]
pub struct HookDecision {
    pub signals: HotkeySignals,
    pub consume: bool,
}

impl HotkeySignals {
    /// The signals never claim the chord is held outside a session.
    pub open spec fn wf(self) -> bool {
        self.held ==> self.session_active
    }

    /// No chord held, no session in flight.
    pub fn idle() -> (r: HotkeySignals)
        ensures
            !r.held,
            !r.session_active,
    {
        HotkeySignals { held: false, session_active: false }
    }
}

/// The chord's primary key: either Windows key.
pub open spec fn is_primary_key(vk: u16) -> bool {
    vk == VK_LWIN || vk == VK_RWIN
}

/// A keydown of the full chord while no session is in flight.
pub open spec fn starts_session(e: KeyEvent, s: HotkeySignals) -> bool {
    e.direction == KeyDirection::Down && is_primary_key(e.vk) && e.ctrl_down && !s.session_active
}

/// A keyup of the primary key while a session is in flight.
pub open spec fn ends_hold(e: KeyEvent, s: HotkeySignals) -> bool {
    e.direction == KeyDirection::Up && is_primary_key(e.vk) && s.session_active
}

/// The signals after the filter has seen `e` in state `s`.
pub open spec fn after_key_event(e: KeyEvent, s: HotkeySignals) -> HotkeySignals {
    if starts_session(e, s) {
        HotkeySignals { held: true, session_active: true }
    } else if ends_hold(e, s) {
        HotkeySignals { held: false, session_active: s.session_active }
    } else {
        s
    }
}

/// The signals after the filter has seen each of `events` in turn.
pub open spec fn after_key_events(s: HotkeySignals, events: Seq<KeyEvent>) -> HotkeySignals
    decreases events.len(),
{
    if events.len() == 0 {
        s
    } else {
        after_key_event(events.last(), after_key_events(s, events.drop_last()))
    }
}

fn is_primary(vk: u16) -> (r: bool)
    ensures
        r == is_primary_key(vk),
{
    vk == VK_LWIN || vk == VK_RWIN
}

/// Decides one keyboard event. The chord's keydown starts a session and
/// is swallowed, so that the OS does not act on it; the primary key's
/// keyup ends the hold but is passed on, so the OS never sees a key
/// stuck down. Everything else passes through and changes nothing.
pub fn on_key_event(event: KeyEvent, signals: HotkeySignals) -> (d: HookDecision)
    ensures
        d.signals == after_key_event(event, signals),
        d.consume == starts_session(event, signals),
{
    let primary = is_primary(event.vk);
    match event.direction {
        KeyDirection::Down => {
            if primary && event.ctrl_down && !signals.session_active {
                return HookDecision {
                    signals: HotkeySignals { held: true, session_active: true },
                    consume: true,
                };
            }
        },
        KeyDirection::Up => {
            if primary && signals.session_active {
                return HookDecision {
                    signals: HotkeySignals { held: false, session_active: signals.session_active },
                    consume: false,
                };
            }
        },
        KeyDirection::Other => {},
    }
    HookDecision { signals, consume: false }
}

/// Whatever keyboard events arrive, starting from signals that are
/// well formed, the chord is never reported held outside a session.
pub proof fn lemma_held_only_in_session(s: HotkeySignals, events: Seq<KeyEvent>)
    requires
        s.wf(),
    ensures
        forall|k: int| 0 <= k <= events.len() ==> (#[trigger] after_key_events(s, events.take(k))).wf(),
    decreases events.len(),
{
    if events.len() > 0 {
        let prefix = events.drop_last();
        lemma_held_only_in_session(s, prefix);
        assert(prefix.take(prefix.len() as int) =~= prefix);
        assert(after_key_events(s, prefix.take(prefix.len() as int)).wf());
        assert forall|k: int| 0 <= k <= events.len() implies (#[trigger] after_key_events(
            s,
            events.take(k),
        )).wf() by {
            if k < events.len() {
                assert(events.take(k) =~= prefix.take(k));
            } else {
                assert(events.take(k) =~= events);
            }
        }
    } else {
        assert(events.take(0) =~= events);
    }
}

/// The two signals as process-wide flags, shared by the keyboard filter
/// and the pipeline. Only atomic loads and stores touch them.
pub struct HotkeyState {
    pub is_pressed: Arc<AtomicBool>,
    pub is_recording: Arc<AtomicBool>,
}

impl HotkeyState {
    /// Both flags down.
    pub fn new() -> (r: HotkeyState) {
        HotkeyState {
            is_pressed: Arc::new(AtomicBool::new(false)),
            is_recording: Arc::new(AtomicBool::new(false)),
        }
    }

    /// The flags as they read now; another thread may change them at any
    /// moment, so nothing is promised of the values.
    pub fn signals(&self) -> (r: HotkeySignals) {
        let held = self.is_pressed.load(Ordering::SeqCst);
        let session_active = self.is_recording.load(Ordering::SeqCst);
        HotkeySignals { held, session_active }
    }

    /// Runs the filter's decision on the current flags and stores the
    /// result. Returns whether the event is to be swallowed, which only
    /// ever happens for a keydown of the full chord.
    pub fn handle_key_event(&self, event: KeyEvent) -> (consume: bool)
        ensures
            consume ==> event.direction == KeyDirection::Down && is_primary_key(event.vk)
                && event.ctrl_down,
    {
        let current = self.signals();
        let d = on_key_event(event, current);
        if d.signals.held != current.held {
            self.is_pressed.store(d.signals.held, Ordering::SeqCst);
        }
        if d.signals.session_active != current.session_active {
            self.is_recording.store(d.signals.session_active, Ordering::SeqCst);
        }
        d.consume
    }

    /// Whether the chord is down now.
    pub fn is_held(&self) -> bool {
        self.is_pressed.load(Ordering::SeqCst)
    }

    /// Ends the session once capture has stopped, which lets the chord
    /// start the next one.
    pub fn end_session(&self) {
        self.is_recording.store(false, Ordering::SeqCst);
    }
}

} // verus!
