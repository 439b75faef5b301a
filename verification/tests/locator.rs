use lenovo_kb_light::error::Error;
use lenovo_kb_light::find_hidraw_device_name;
use lenovo_kb_light::locator::{
    HidrawEntry, HidrawListing, DESCRIPTOR_FILE, DEVICE_DIR, DEVICE_IDENTITY, HIDRAW_CLASS_DIR,
};

fn entry(name: &str, lines: &[&str], failure: Option<&str>) -> HidrawEntry {
    HidrawEntry {
        name: name.to_string(),
        lines: lines.iter().map(|line| line.to_string()).collect(),
        failure: failure.map(|reason| reason.to_string()),
    }
}

fn listing(entries: Vec<HidrawEntry>, failure: Option<&str>) -> HidrawListing {
    HidrawListing { entries, failure: failure.map(|reason| reason.to_string()) }
}

const KEYBOARD: &[&str] =
    &["DRIVER=hid-generic", "HID_ID=0018:0000048D:0000837A", "HID_NAME=ITE33D1:00 048D:837A"];

const MOUSE: &[&str] = &["DRIVER=hid-generic", "HID_NAME=Logitech USB Receiver"];

#[test]
fn locator_constants() {
    assert_eq!(HIDRAW_CLASS_DIR, "/sys/class/hidraw");
    assert_eq!(DESCRIPTOR_FILE, "device/uevent");
    assert_eq!(DEVICE_DIR, "/dev");
    assert_eq!(DEVICE_IDENTITY, "HID_NAME=ITE33D1:00 048D:837A");
}

#[test]
fn finds_the_keyboard() {
    let found = find_hidraw_device_name(&listing(
        vec![entry("hidraw0", MOUSE, None), entry("hidraw1", KEYBOARD, None)],
        None,
    ));
    assert_eq!(found.unwrap(), "hidraw1");
}

#[test]
fn entry_knows_the_keyboard() {
    assert!(entry("hidraw1", KEYBOARD, None).is_keyboard());
    assert!(!entry("hidraw0", MOUSE, None).is_keyboard());
    assert!(!entry("hidraw2", &[], None).is_keyboard());
}

#[test]
fn first_match_wins() {
    let found = find_hidraw_device_name(&listing(
        vec![
            entry("hidraw3", KEYBOARD, None),
            entry("hidraw0", MOUSE, None),
            entry("hidraw1", KEYBOARD, None),
        ],
        None,
    ));
    assert_eq!(found.unwrap(), "hidraw3");
}

#[test]
fn line_must_match_exactly() {
    let near: &[&str] = &[
        "HID_NAME=ITE33D1:00 048D:837A ",
        " HID_NAME=ITE33D1:00 048D:837A",
        "HID_NAME=ITE33D1:00 048D:837",
        "hid_name=ite33d1:00 048d:837a",
        "ITE33D1:00 048D:837A",
    ];
    let found = find_hidraw_device_name(&listing(vec![entry("hidraw0", near, None)], None));
    assert!(matches!(found, Err(Error::HidrawDeviceNotFound)));
}

#[test]
fn no_entries_is_not_found() {
    assert!(matches!(
        find_hidraw_device_name(&listing(vec![], None)),
        Err(Error::HidrawDeviceNotFound)
    ));
}

#[test]
fn no_match_is_not_found() {
    let found = find_hidraw_device_name(&listing(
        vec![entry("hidraw0", MOUSE, None), entry("hidraw1", &[], None)],
        None,
    ));
    assert!(matches!(found, Err(Error::HidrawDeviceNotFound)));
}

#[test]
fn unreadable_descriptor_aborts_the_scan() {
    let found = find_hidraw_device_name(&listing(
        vec![
            entry("hidraw0", MOUSE, None),
            entry("hidraw1", &[], Some("Permission denied (os error 13)")),
            entry("hidraw2", KEYBOARD, None),
        ],
        None,
    ));
    match found {
        Err(Error::Problem(text)) => assert_eq!(text, "Permission denied (os error 13)"),
        other => panic!("unexpected result {:?}", other),
    }
}

#[test]
fn unreadable_descriptor_behind_the_keyboard_does_not_matter() {
    let found = find_hidraw_device_name(&listing(
        vec![entry("hidraw2", KEYBOARD, None), entry("hidraw1", &[], Some("broken"))],
        Some("listing broke off"),
    ));
    assert_eq!(found.unwrap(), "hidraw2");
}

#[test]
fn line_read_before_the_failure_counts() {
    let found = find_hidraw_device_name(&listing(
        vec![entry("hidraw4", KEYBOARD, Some("stream did not contain valid UTF-8"))],
        None,
    ));
    assert_eq!(found.unwrap(), "hidraw4");
}

#[test]
fn failure_after_other_lines_aborts() {
    let found = find_hidraw_device_name(&listing(
        vec![entry("hidraw4", MOUSE, Some("stream did not contain valid UTF-8"))],
        None,
    ));
    match found {
        Err(Error::Problem(text)) => assert_eq!(text, "stream did not contain valid UTF-8"),
        other => panic!("unexpected result {:?}", other),
    }
}

#[test]
fn broken_listing_is_a_problem() {
    let found = find_hidraw_device_name(&listing(vec![], Some("No such file or directory")));
    match found {
        Err(Error::Problem(text)) => assert_eq!(text, "No such file or directory"),
        other => panic!("unexpected result {:?}", other),
    }
    let found = find_hidraw_device_name(&listing(
        vec![entry("hidraw0", MOUSE, None)],
        Some("Input/output error"),
    ));
    match found {
        Err(Error::Problem(text)) => assert_eq!(text, "Input/output error"),
        other => panic!("unexpected result {:?}", other),
    }
}

#[test]
fn search_ends_at_the_keyboard_or_at_a_failure() {
    assert!(entry("hidraw1", KEYBOARD, None).ends_search());
    assert!(entry("hidraw1", KEYBOARD, Some("broken")).ends_search());
    assert!(entry("hidraw0", MOUSE, Some("broken")).ends_search());
    assert!(!entry("hidraw0", MOUSE, None).ends_search());
    assert!(!entry("hidraw0", &[], None).ends_search());
}

#[test]
fn nodes_behind_the_stop_have_no_part() {
    let whole = listing(
        vec![
            entry("hidraw0", MOUSE, None),
            entry("hidraw1", KEYBOARD, None),
            entry("hidraw2", KEYBOARD, Some("broken")),
        ],
        Some("listing broke off"),
    );
    let cut = listing(vec![entry("hidraw0", MOUSE, None), entry("hidraw1", KEYBOARD, None)], None);
    assert_eq!(find_hidraw_device_name(&whole).unwrap(), "hidraw1");
    assert_eq!(find_hidraw_device_name(&cut).unwrap(), "hidraw1");
}
