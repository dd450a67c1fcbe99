use r8_core::{is_hidraw_name, is_vendor_config_descriptor, uevent_names_adapter};

#[test]
fn hidraw_names() {
    assert!(is_hidraw_name(b"hidraw0"));
    assert!(is_hidraw_name(b"hidraw"));
    assert!(!is_hidraw_name(b"hidra"));
    assert!(!is_hidraw_name(b"event3"));
    assert!(!is_hidraw_name(b"xhidraw1"));
}

#[test]
fn adapter_uevent_is_recognised() {
    let text = "DRIVER=hid-generic\nHID_ID=0003:00002DC8:00005206\nHID_NAME=8BitDo Retro R8\n";
    assert!(uevent_names_adapter(text.as_bytes()));
    let lower = "HID_ID=0003:00002dc8:00005206\n";
    assert!(uevent_names_adapter(lower.as_bytes()));
}

#[test]
fn other_uevents_are_not() {
    assert!(!uevent_names_adapter(b"HID_ID=0003:0000046D:0000C52B\n"));
    assert!(!uevent_names_adapter(b"HID_ID=0003:00002DC8:00005207\n"));
    assert!(!uevent_names_adapter(b"HID_ID=0003:0000ABCD:00005206\n"));
    assert!(!uevent_names_adapter(b""));
    assert!(!uevent_names_adapter(b"2DC"));
}

#[test]
fn vendor_descriptor() {
    assert!(is_vendor_config_descriptor(&[0x06, 0x00, 0xff, 0x09, 0x01]));
    assert!(is_vendor_config_descriptor(&[0x06, 0x00, 0xff]));
    assert!(!is_vendor_config_descriptor(&[0x05, 0x01, 0x09, 0x02]));
    assert!(!is_vendor_config_descriptor(&[0x06, 0x00]));
}
