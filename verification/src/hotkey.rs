//! The detector of the backlight hotkey.
//!
//! The keyboard announces the hotkey in two events that follow each other: a
//! scan-code event that carries the code of the key combination, and the
//! key-down of a key that has no meaning of its own. The detector arms on the
//! first and fires on the second; any other event in between disarms it.

use vstd::prelude::*;

verus! {

/// The type of key events.
pub const EV_KEY: u16 = 0x01;

/// The type of miscellaneous events.
pub const EV_MSC: u16 = 0x04;

/// The miscellaneous event that carries a scan code.
pub const MSC_SCAN: u16 = 0x04;

/// The key that the keyboard reports for the hotkey.
pub const KEY_UNKNOWN: u16 = 240;

/// The scan code of the key combination.
pub const FN_SPACE: i32 = 0xc0050;

/// The value of a key event that says the key went down.
pub const KEY_DOWN: i32 = 1;

/// An input event as the kernel hands it out, without its time.
#[derive(Clone, Copy, Debug, PartialEq, Eq, Structural)]
pub struct InputEvent {
    /// The event's type.
    pub kind: u16,
    /// The code within the type.
    pub code: u16,
    /// The value that comes with the code.
    pub value: i32,
}

/// What an event is to the detector: its code and value if it is a key event
/// or a miscellaneous event, nothing otherwise.
#[derive(Clone, Copy, Debug, PartialEq, Eq, Structural)]
pub enum EventSummary {
    Key(u16, i32),
    Misc(u16, i32),
    Other,
}

/// The two states of the detector.
#[derive(Clone, Copy, Debug, PartialEq, Eq, Structural)]
pub enum HotkeyPhase {
    /// Nothing of the hotkey has been seen.
    Idle,
    /// The scan code of the combination was the last event.
    ModifierArmed,
}

/// The summary of an event: by its type, with code and value kept.
pub open spec fn summary_of(event: InputEvent) -> EventSummary {
    if event.kind == EV_KEY {
        EventSummary::Key(event.code, event.value)
    } else if event.kind == EV_MSC {
        EventSummary::Misc(event.code, event.value)
    } else {
        EventSummary::Other
    }
}

/// The event is the scan code of the key combination.
pub open spec fn is_modifier_scan(event: InputEvent) -> bool {
    summary_of(event) == EventSummary::Misc(MSC_SCAN, FN_SPACE)
}

/// The event is the key-down of the hotkey's key.
pub open spec fn is_trigger_down(event: InputEvent) -> bool {
    summary_of(event) == EventSummary::Key(KEY_UNKNOWN, KEY_DOWN)
}

/// One step of the detector: the phase after the event, and whether the event
/// completes the hotkey.
pub open spec fn hotkey_step(phase: HotkeyPhase, event: InputEvent) -> (HotkeyPhase, bool) {
    if is_modifier_scan(event) {
        (HotkeyPhase::ModifierArmed, false)
    } else if is_trigger_down(event) && phase == HotkeyPhase::ModifierArmed {
        (HotkeyPhase::Idle, true)
    } else {
        (HotkeyPhase::Idle, false)
    }
}

/// Sorts an event with evdev: builds evdev's `InputEvent` from the three
/// numbers with `InputEvent::new` and takes it apart with
/// `InputEvent::destructure`. evdev goes by the event's type alone: type 1
/// gives its `Key` summary and type 4 its `Misc` summary, each with the
/// event's code and value as they are; every other type gives another
/// summary, which is of no interest here.
#[verifier::external_body]
fn destructure(event: InputEvent) -> (summary: EventSummary)
    ensures
        summary == summary_of(event),
{
    match evdev::InputEvent::new(event.kind, event.code, event.value).destructure() {
        evdev::EventSummary::Key(_, key, value) => EventSummary::Key(key.0, value),
        evdev::EventSummary::Misc(_, misc, value) => EventSummary::Misc(misc.0, value),
        _ => EventSummary::Other,
    }
}

/// The detector of the hotkey.
#[derive(Clone, Copy, Debug, PartialEq, Eq, Structural)]
pub struct HotkeyDetector {
    pub phase: HotkeyPhase,
}

impl HotkeyDetector {
    /// A detector that has seen nothing yet.
    pub fn new() -> (detector: HotkeyDetector)
        ensures
            detector.phase == HotkeyPhase::Idle,
    {
        HotkeyDetector { phase: HotkeyPhase::Idle }
    }

    /// Takes the next event of the stream and says whether it completes the
    /// hotkey, that is, whether the backlight is to be toggled.
    pub fn feed(&mut self, event: InputEvent) -> (toggle: bool)
        ensures
            (final(self).phase, toggle) == hotkey_step(old(self).phase, event),
    {
        match destructure(event) {
            EventSummary::Misc(code, value) if code == MSC_SCAN && value == FN_SPACE => {
                self.phase = HotkeyPhase::ModifierArmed;
                false
            },
            EventSummary::Key(code, value) if code == KEY_UNKNOWN && value == KEY_DOWN
                && self.phase == HotkeyPhase::ModifierArmed => {
                self.phase = HotkeyPhase::Idle;
                true
            },
            _ => {
                self.phase = HotkeyPhase::Idle;
                false
            },
        }
    }
}

/// The phase of a detector that started in `phase` and was fed `events`.
pub open spec fn phase_after(phase: HotkeyPhase, events: Seq<InputEvent>) -> HotkeyPhase
    decreases events.len(),
{
    if events.len() == 0 {
        phase
    } else {
        hotkey_step(phase_after(phase, events.drop_last()), events.last()).0
    }
}

/// Whether a detector that started in `phase` fires on `events[at]`.
pub open spec fn fires_at(phase: HotkeyPhase, events: Seq<InputEvent>, at: int) -> bool {
    hotkey_step(phase_after(phase, events.take(at)), events[at]).1
}

/// How often a detector that started in `phase` fires while it is fed
/// `events`.
pub open spec fn toggles(phase: HotkeyPhase, events: Seq<InputEvent>) -> nat
    decreases events.len(),
{
    if events.len() == 0 {
        0
    } else {
        let before = events.drop_last();
        let fired: nat = if hotkey_step(phase_after(phase, before), events.last()).1 {
            1
        } else {
            0
        };
        toggles(phase, before) + fired
    }
}

/// The scan code of the combination stands at `at`, directly followed by the
/// key-down of the hotkey's key.
pub open spec fn completes_at(events: Seq<InputEvent>, at: int) -> bool {
    &&& 0 <= at
    &&& at + 1 < events.len()
    &&& is_modifier_scan(events[at])
    &&& is_trigger_down(events[at + 1])
}

/// How many times the scan code of the combination is directly followed by
/// the key-down of the hotkey's key.
pub open spec fn completions(events: Seq<InputEvent>) -> nat
    decreases events.len(),
{
    if events.len() < 2 {
        0
    } else {
        let completed: nat = if completes_at(events, events.len() - 2) {
            1
        } else {
            0
        };
        completions(events.drop_last()) + completed
    }
}

/// After at least one event, the detector is armed exactly if the last event
/// was the scan code of the combination, whatever came before.
pub proof fn lemma_phase_follows_last_event(phase: HotkeyPhase, events: Seq<InputEvent>)
    requires
        events.len() > 0,
    ensures
        phase_after(phase, events) == if is_modifier_scan(events.last()) {
            HotkeyPhase::ModifierArmed
        } else {
            HotkeyPhase::Idle
        },
{
}

/// The detector fires on an event exactly if that event is the key-down of
/// the hotkey's key and the detector is armed: by the event directly before
/// it, which then is the scan code of the combination, or, on the first
/// event, by the phase it started in.
pub proof fn lemma_fires_exactly(phase: HotkeyPhase, events: Seq<InputEvent>, at: int)
    requires
        0 <= at < events.len(),
    ensures
        at == 0 ==> (fires_at(phase, events, at) <==> is_trigger_down(events[0]) && phase
            == HotkeyPhase::ModifierArmed),
        at > 0 ==> (fires_at(phase, events, at) <==> completes_at(events, at - 1)),
{
    if at > 0 {
        lemma_phase_follows_last_event(phase, events.take(at));
    }
}

/// A detector that starts idle fires on an event exactly if that event is
/// the key-down of the hotkey's key and the event directly before it is the
/// scan code of the combination.
pub proof fn lemma_fires_on_completion(events: Seq<InputEvent>, at: int)
    requires
        0 <= at < events.len(),
    ensures
        fires_at(HotkeyPhase::Idle, events, at) <==> completes_at(events, at - 1),
{
    lemma_fires_exactly(HotkeyPhase::Idle, events, at);
}

/// Feeding a stream is feeding its first event and then the rest.
pub proof fn lemma_phase_after_first(phase: HotkeyPhase, events: Seq<InputEvent>)
    requires
        events.len() > 0,
    ensures
        phase_after(phase, events) == phase_after(
            hotkey_step(phase, events.first()).0,
            events.drop_first(),
        ),
{
    let rest = events.drop_first();
    if rest.len() > 0 {
        lemma_phase_follows_last_event(phase, events);
        lemma_phase_follows_last_event(hotkey_step(phase, events.first()).0, rest);
    }
}

/// A detector that starts idle fires once for every scan code of the
/// combination that the key-down directly follows, and never otherwise.
pub proof fn lemma_toggles_count_completions(events: Seq<InputEvent>)
    ensures
        toggles(HotkeyPhase::Idle, events) == completions(events),
    decreases events.len(),
{
    if events.len() > 0 {
        let before = events.drop_last();
        lemma_toggles_count_completions(before);
        if before.len() > 0 {
            lemma_phase_follows_last_event(HotkeyPhase::Idle, before);
            assert(completions(events) == completions(before) + if completes_at(
                events,
                events.len() - 2,
            ) {
                1nat
            } else {
                0nat
            });
        }
    }
}

/// A stream in which the key-down never directly follows the scan code of
/// the combination makes a detector that starts idle fire not once.
pub proof fn lemma_no_completion_no_toggle(events: Seq<InputEvent>)
    requires
        forall|at: int| !completes_at(events, at),
    ensures
        toggles(HotkeyPhase::Idle, events) == 0,
    decreases events.len(),
{
    if events.len() > 0 {
        let before = events.drop_last();
        assert forall|at: int| !completes_at(before, at) by {
            if completes_at(before, at) {
                assert(completes_at(events, at));
            }
        }
        lemma_no_completion_no_toggle(before);
        if before.len() > 0 {
            lemma_phase_follows_last_event(HotkeyPhase::Idle, before);
            assert(!completes_at(events, events.len() - 2));
        }
    }
}

/// The scan code and the key-down, fed one after the other, make the
/// detector fire exactly once, on the second, and leave it idle: whatever
/// phase it was in, and so also right after it has fired.
pub proof fn lemma_completion_fires_once(phase: HotkeyPhase, scan: InputEvent, down: InputEvent)
    requires
        is_modifier_scan(scan),
        is_trigger_down(down),
    ensures
        toggles(phase, seq![scan, down]) == 1,
        !fires_at(phase, seq![scan, down], 0),
        fires_at(phase, seq![scan, down], 1),
        phase_after(phase, seq![scan, down]) == HotkeyPhase::Idle,
{
    let both = seq![scan, down];
    let first = both.drop_last();
    assert(toggles(phase, first.drop_last()) == 0);
    assert(toggles(phase, first) == 0);
}

} // verus!
