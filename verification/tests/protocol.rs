use r8_core::{
    battery_request, button_map_request, button_map_write_packet, default_dpi_stages,
    dpi_request, frame_report, read_battery, read_button_map, read_dpi, stage_color,
    stage_color_hex, BatteryState, HidError,
    BTN_INDEX_EXTRA, BTN_INDEX_SIDE, REPORT_LEN,
};

fn report(prefix: &[u8]) -> Vec<u8> {
    frame_report(prefix)
}

#[test]
fn request_packets_have_their_opcodes() {
    assert_eq!(dpi_request(), vec![0x01, 0x06, 0x12, 0x01]);
    assert_eq!(button_map_request(3), vec![0x01, 0x06, 0x10, 0x01, 0x00, 0x03]);
    assert_eq!(battery_request(), vec![0x01, 0x06, 0x1a, 0x01]);
}

#[test]
fn write_packet_carries_value_little_endian() {
    assert_eq!(
        button_map_write_packet(4, 0x1234),
        vec![0x01, 0x06, 0x10, 0x04, 0x00, 0x04, 0x34, 0x12, 0, 0, 0]
    );
    assert_eq!(
        button_map_write_packet(3, 0xff),
        vec![0x01, 0x06, 0x10, 0x04, 0x00, 0x03, 0xff, 0x00, 0, 0, 0]
    );
}

#[test]
fn frame_pads_to_a_full_report() {
    let f = frame_report(&[1, 2, 3]);
    assert_eq!(f.len(), REPORT_LEN);
    assert_eq!(&f[..3], &[1, 2, 3]);
    assert!(f[3..].iter().all(|&b| b == 0));
}

#[test]
fn frame_cuts_long_packets() {
    let long: Vec<u8> = (0..100u8).collect();
    let f = frame_report(&long);
    assert_eq!(f.len(), 64);
    assert_eq!(f, long[..64].to_vec());
}

#[test]
fn dpi_reply_is_decoded() {
    // 3 stages: 800, 1600, 3200; active index 1; current 1600.
    let r = report(&[
        0x01, 0x06, 0x12, 0x11, 3, 1, 0x40, 0x06, 0x20, 0x03, 0x40, 0x06, 0x80, 0x0c,
    ]);
    let s = read_dpi(&vec![r]).unwrap();
    assert_eq!(s.index, 1);
    assert_eq!(s.current_dpi, 1600);
    assert_eq!(s.stages, vec![800, 1600, 3200]);
}

#[test]
fn dpi_index_is_cut_to_last_stage() {
    let r = report(&[0x01, 0x06, 0x12, 0x11, 2, 9, 0x20, 0x03, 0x20, 0x03, 0x40, 0x06]);
    let s = read_dpi(&vec![r]).unwrap();
    assert_eq!(s.stages, vec![800, 1600]);
    assert_eq!(s.index, 1);
}

#[test]
fn dpi_without_stages_uses_defaults() {
    let r = report(&[0x01, 0x06, 0x12, 0x11, 0, 4, 0x00, 0x19]);
    let s = read_dpi(&vec![r]).unwrap();
    assert_eq!(s.stages, default_dpi_stages());
    assert_eq!(s.stages, vec![800, 1200, 1600, 2400, 3200, 6400]);
    assert_eq!(s.index, 4);
    assert_eq!(s.current_dpi, 6400);
}

#[test]
fn dpi_stage_count_is_cut_to_the_reply() {
    // 16-byte reply: room for (16 - 8) / 2 = 4 stages, count says 200.
    let r = vec![
        0x01, 0x06, 0x12, 0x11, 200, 0, 0, 0, 1, 0, 2, 0, 3, 0, 4, 0,
    ];
    let s = read_dpi(&vec![r]).unwrap();
    assert_eq!(s.stages, vec![1, 2, 3, 4]);
    // A 17-byte reply still has room for 4 only.
    let r = vec![
        0x01, 0x06, 0x12, 0x11, 200, 0, 0, 0, 1, 0, 2, 0, 3, 0, 4, 0, 5,
    ];
    assert_eq!(read_dpi(&vec![r]).unwrap().stages.len(), 4);
}

#[test]
fn dpi_takes_the_first_matching_reply() {
    let other = report(&[0x01, 0x06, 0x1a, 0x11, 50, 0]);
    let short = vec![0x01, 0x06, 0x12, 0x11, 1, 0, 0, 0, 0x20, 0x03];
    let a = report(&[0x01, 0x06, 0x12, 0x11, 1, 0, 0x20, 0x03, 0x20, 0x03]);
    let b = report(&[0x01, 0x06, 0x12, 0x11, 1, 0, 0x40, 0x06, 0x40, 0x06]);
    let s = read_dpi(&vec![other, short, a, b]).unwrap();
    assert_eq!(s.current_dpi, 800);
}

#[test]
fn dpi_without_reply_is_bad_reply() {
    assert!(matches!(read_dpi(&vec![]), Err(HidError::BadReply)));
    let other = report(&[0x01, 0x07, 0x12, 0x11]);
    assert!(matches!(read_dpi(&vec![other]), Err(HidError::BadReply)));
}

#[test]
fn written_map_reads_back() {
    for v in [0u16, 1, 4, 5, 0xff, 0x1234, u16::MAX] {
        let echo = button_map_write_packet(BTN_INDEX_SIDE, v);
        assert_eq!(read_button_map(BTN_INDEX_SIDE, &vec![echo]).unwrap(), v);
    }
}

#[test]
fn button_map_reply_must_name_the_button() {
    let r = report(&[0x01, 0x06, 0x10, 0x11, 0x00, BTN_INDEX_SIDE, 5, 0]);
    assert!(matches!(
        read_button_map(BTN_INDEX_EXTRA, &vec![r.clone()]),
        Err(HidError::BadReply)
    ));
    assert_eq!(read_button_map(BTN_INDEX_SIDE, &vec![r]).unwrap(), 5);
    let short = vec![0x01, 0x06, 0x10, 0x11, 0x00, BTN_INDEX_SIDE, 5];
    assert!(matches!(read_button_map(BTN_INDEX_SIDE, &vec![short]), Err(HidError::BadReply)));
}

#[test]
fn battery_reply_is_decoded() {
    let r = report(&[0x01, 0x06, 0x1a, 0x11, 80, 0x01]);
    assert_eq!(
        read_battery(&vec![r]).unwrap(),
        BatteryState { percent: 80, charging: true, known: true }
    );
    let echo = report(&[0x01, 0x06, 0x1a, 0x01, 42, 0x02]);
    assert_eq!(
        read_battery(&vec![echo]).unwrap(),
        BatteryState { percent: 42, charging: false, known: true }
    );
}

#[test]
fn battery_percent_is_capped_at_100() {
    let r = report(&[0x01, 0x06, 0x1a, 0x11, 150, 0]);
    assert_eq!(read_battery(&vec![r]).unwrap().percent, 100);
}

#[test]
fn empty_battery_payload_is_unknown() {
    let r = report(&[0x01, 0x06, 0x1a, 0x11, 0, 0]);
    assert_eq!(
        read_battery(&vec![r]).unwrap(),
        BatteryState { percent: 0, charging: false, known: false }
    );
    let status_only = report(&[0x01, 0x06, 0x1a, 0x11, 0, 0x04]);
    assert!(read_battery(&vec![status_only]).unwrap().known);
}

#[test]
fn battery_skips_other_replies() {
    let wrong_sub = report(&[0x01, 0x06, 0x1a, 0x02, 90, 0]);
    let short = vec![0x01, 0x06, 0x1a, 0x11, 90];
    let good = report(&[0x01, 0x06, 0x1a, 0x11, 30, 0]);
    assert_eq!(read_battery(&vec![wrong_sub.clone(), short.clone(), good]).unwrap().percent, 30);
    assert!(matches!(read_battery(&vec![wrong_sub, short]), Err(HidError::BadReply)));
}

#[test]
fn hid_error_variants_exist() {
    let e = HidError::Io(std::io::Error::new(std::io::ErrorKind::Other, "x"));
    assert!(matches!(e, HidError::Io(_)));
    assert!(matches!(HidError::NotFound, HidError::NotFound));
}

#[test]
fn stage_colors() {
    assert_eq!(stage_color(0), Some(("Yellow", "#e6c200")));
    assert_eq!(stage_color(3), Some(("Pink", "#e91e8c")));
    assert_eq!(stage_color(5), Some(("Purple", "#9b59b6")));
    assert_eq!(stage_color(6), None);
    assert_eq!(stage_color_hex(2), Some("#e67e22"));
    assert_eq!(stage_color_hex(1), Some("#3cb043"));
    assert_eq!(stage_color_hex(4), Some("#3498db"));
    assert_eq!(stage_color_hex(6), None);
    for i in 0..default_dpi_stages().len() {
        assert!(stage_color(i).is_some());
    }
}

#[test]
fn charging_mouse_is_known() {
    let r = report(&[0x01, 0x06, 0x1a, 0x11, 0, 0x01]);
    assert_eq!(
        read_battery(&vec![r]).unwrap(),
        BatteryState { percent: 0, charging: true, known: true }
    );
}
