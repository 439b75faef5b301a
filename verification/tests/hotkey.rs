use lenovo_kb_light::hotkey::{
    HotkeyDetector, HotkeyPhase, InputEvent, EV_KEY, EV_MSC, FN_SPACE, KEY_DOWN, KEY_UNKNOWN,
    MSC_SCAN,
};

fn scan() -> InputEvent {
    InputEvent { kind: EV_MSC, code: MSC_SCAN, value: FN_SPACE }
}

fn key_down() -> InputEvent {
    InputEvent { kind: EV_KEY, code: KEY_UNKNOWN, value: KEY_DOWN }
}

fn key_up() -> InputEvent {
    InputEvent { kind: EV_KEY, code: KEY_UNKNOWN, value: 0 }
}

fn key_repeat() -> InputEvent {
    InputEvent { kind: EV_KEY, code: KEY_UNKNOWN, value: 2 }
}

fn report() -> InputEvent {
    InputEvent { kind: 0, code: 0, value: 0 }
}

fn letter_down() -> InputEvent {
    InputEvent { kind: EV_KEY, code: 30, value: KEY_DOWN }
}

fn count(detector: &mut HotkeyDetector, events: &[InputEvent]) -> usize {
    let mut toggles = 0;
    for event in events {
        if detector.feed(*event) {
            toggles += 1;
        }
    }
    toggles
}

#[test]
fn constants_are_those_of_the_keyboard() {
    assert_eq!(EV_KEY, 1);
    assert_eq!(EV_MSC, 4);
    assert_eq!(MSC_SCAN, 4);
    assert_eq!(KEY_UNKNOWN, 240);
    assert_eq!(FN_SPACE, 0xc0050);
    assert_eq!(KEY_DOWN, 1);
}

#[test]
fn new_detector_is_idle() {
    assert_eq!(HotkeyDetector::new().phase, HotkeyPhase::Idle);
}

#[test]
fn scan_then_key_down_toggles_once() {
    let mut detector = HotkeyDetector::new();
    assert!(!detector.feed(scan()));
    assert_eq!(detector.phase, HotkeyPhase::ModifierArmed);
    assert!(detector.feed(key_down()));
    assert_eq!(detector.phase, HotkeyPhase::Idle);
}

#[test]
fn detector_is_restartable() {
    let mut detector = HotkeyDetector::new();
    assert_eq!(count(&mut detector, &[scan(), key_down()]), 1);
    assert_eq!(count(&mut detector, &[scan(), key_down()]), 1);
    assert_eq!(detector.phase, HotkeyPhase::Idle);
}

#[test]
fn scan_then_key_up_does_not_toggle() {
    let mut detector = HotkeyDetector::new();
    assert_eq!(count(&mut detector, &[scan(), key_up()]), 0);
    assert_eq!(detector.phase, HotkeyPhase::Idle);
}

#[test]
fn scan_then_key_repeat_does_not_toggle() {
    let mut detector = HotkeyDetector::new();
    assert_eq!(count(&mut detector, &[scan(), key_repeat()]), 0);
}

#[test]
fn unrelated_event_disarms() {
    let mut detector = HotkeyDetector::new();
    assert_eq!(count(&mut detector, &[scan(), letter_down(), key_down()]), 0);
    let mut detector = HotkeyDetector::new();
    assert_eq!(count(&mut detector, &[scan(), report(), key_down()]), 0);
}

#[test]
fn key_down_without_scan_does_not_toggle() {
    let mut detector = HotkeyDetector::new();
    assert_eq!(count(&mut detector, &[key_down(), key_down(), report(), key_down()]), 0);
}

#[test]
fn second_key_down_after_toggle_does_not_toggle() {
    let mut detector = HotkeyDetector::new();
    assert_eq!(count(&mut detector, &[scan(), key_down(), key_down()]), 1);
}

#[test]
fn repeated_scan_stays_armed() {
    let mut detector = HotkeyDetector::new();
    assert_eq!(count(&mut detector, &[scan(), scan(), key_down()]), 1);
}

#[test]
fn streams_without_the_pair_never_toggle() {
    let streams: Vec<Vec<InputEvent>> = vec![
        vec![],
        vec![scan()],
        vec![key_down()],
        vec![key_down(), scan()],
        vec![scan(), report(), key_down(), scan(), key_up(), key_down()],
        vec![letter_down(), scan(), letter_down(), key_down(), report()],
    ];
    for stream in streams {
        let mut detector = HotkeyDetector::new();
        assert_eq!(count(&mut detector, &stream), 0);
    }
}

#[test]
fn toggles_are_counted_by_pairs() {
    let mut detector = HotkeyDetector::new();
    let stream = [
        scan(),
        key_down(),
        report(),
        scan(),
        key_up(),
        report(),
        scan(),
        key_down(),
        key_down(),
        scan(),
        scan(),
        key_down(),
    ];
    assert_eq!(count(&mut detector, &stream), 3);
}

#[test]
fn scan_of_another_combination_is_unrelated() {
    let mut detector = HotkeyDetector::new();
    let other = InputEvent { kind: EV_MSC, code: MSC_SCAN, value: 0xc0051 };
    assert_eq!(count(&mut detector, &[other, key_down()]), 0);
    let raw = InputEvent { kind: EV_MSC, code: 3, value: FN_SPACE };
    assert_eq!(count(&mut detector, &[raw, key_down()]), 0);
}

#[test]
fn event_type_decides_not_the_code() {
    // The numbers of the scan code in an event of another type arm nothing,
    // and the numbers of the key-down in another type fire nothing.
    let mut detector = HotkeyDetector::new();
    let not_misc = InputEvent { kind: 3, code: MSC_SCAN, value: FN_SPACE };
    assert_eq!(count(&mut detector, &[not_misc, key_down()]), 0);
    let not_key = InputEvent { kind: 5, code: KEY_UNKNOWN, value: KEY_DOWN };
    assert_eq!(count(&mut detector, &[scan(), not_key]), 0);
    // A scan code that happens to equal the key's numbers is still a scan.
    let odd = InputEvent { kind: EV_MSC, code: KEY_UNKNOWN, value: KEY_DOWN };
    assert_eq!(count(&mut detector, &[scan(), odd]), 0);
}
