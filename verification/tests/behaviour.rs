use r8_core::{
    action_events, action_list, battery_show, button_map_write_packet, default_true,
    hardware_mouse_value, poll_round, route_input, slot_value, write_factory_button_maps,
    write_side_button_maps, Action, BatteryShow, BatteryState, BatteryTone, ButtonConfig,
    ButtonMapWriter, Config, DpiState, HidError, Lang, OutEvent, PollMsg, PollState, Routed,
    Slot, SlotValue, WriteStep, EV_KEY, EV_SYN,
};

const BTN_LEFT: u16 = 0x110;
const BTN_SIDE: u16 = 0x113;
const BTN_EXTRA: u16 = 0x114;
const KEY_LEFTCTRL: u16 = 29;
const KEY_C: u16 = 46;
const KEY_VOLUMEUP: u16 = 115;

fn key(code: u16, value: i32) -> OutEvent {
    OutEvent::Key { code, value }
}

// ---------------------------------------------------------------- actions

#[test]
fn hardware_values_of_mouse_buttons() {
    assert_eq!(hardware_mouse_value(Action::Default), None);
    assert_eq!(hardware_mouse_value(Action::Disabled), Some(0xff));
    assert_eq!(hardware_mouse_value(Action::Left), Some(1));
    assert_eq!(hardware_mouse_value(Action::Right), Some(2));
    assert_eq!(hardware_mouse_value(Action::Middle), Some(3));
    assert_eq!(hardware_mouse_value(Action::Forward), Some(4));
    assert_eq!(hardware_mouse_value(Action::Back), Some(5));
    assert_eq!(hardware_mouse_value(Action::Copy), None);
    assert_eq!(hardware_mouse_value(Action::Escape), None);
}

#[test]
fn hardware_values_are_distinct() {
    let vals: Vec<u16> = action_list()
        .iter()
        .filter_map(|a| hardware_mouse_value(a.id))
        .collect();
    assert_eq!(vals.len(), 6);
    for i in 0..vals.len() {
        for j in i + 1..vals.len() {
            assert_ne!(vals[i], vals[j]);
        }
    }
}

#[test]
fn action_list_offers_every_action_once() {
    let list = action_list();
    assert_eq!(list.len(), 21);
    assert_eq!(list[0].id, Action::Default);
    assert_eq!(list[1].id, Action::Disabled);
    assert_eq!(list[20].id, Action::Escape);
    for i in 0..list.len() {
        for j in i + 1..list.len() {
            assert_ne!(list[i].id, list[j].id);
        }
    }
}

#[test]
fn action_default_is_default() {
    assert_eq!(Action::default(), Action::Default);
}

// ----------------------------------------------------------------- config

#[test]
fn config_defaults() {
    let c = Config::default();
    assert_eq!(c.buttons, ButtonConfig { side: Action::Default, extra: Action::Default });
    assert!(c.software_remap);
    assert!(!c.saved_to_mouse);
    assert_eq!(c.language, Lang::En);
    assert!(default_true());
    assert_eq!(Lang::default(), Lang::En);
}

#[test]
fn reset_software_keeps_saved_flag() {
    let mut c = Config {
        buttons: ButtonConfig { side: Action::Copy, extra: Action::Mute },
        software_remap: false,
        saved_to_mouse: true,
        language: Lang::En,
    };
    c.reset_software();
    assert_eq!(c.buttons, ButtonConfig { side: Action::Default, extra: Action::Default });
    assert!(c.software_remap);
    assert!(c.saved_to_mouse);
}

#[test]
fn firmware_reset_is_recorded() {
    let mut c = Config {
        buttons: ButtonConfig { side: Action::Left, extra: Action::Right },
        software_remap: false,
        saved_to_mouse: false,
        language: Lang::En,
    };
    c.record_firmware_reset();
    assert_eq!(c.buttons, ButtonConfig { side: Action::Default, extra: Action::Default });
    assert!(c.saved_to_mouse);
    assert!(!c.software_remap);
    let mut d = Config::default();
    d.record_saved_to_mouse();
    assert!(d.saved_to_mouse);
    assert!(d.software_remap);
}

// --------------------------------------------------------------- firmware

fn attempt(st: &WriteStep) -> (u8, Vec<u8>) {
    match st {
        WriteStep::Attempt { btn_index, packet } => (*btn_index, packet.clone()),
        WriteStep::Finished(_) => panic!("expected an attempt"),
    }
}

#[test]
fn side_buttons_write_rear_then_front() {
    let (mut w, st) = write_side_button_maps(2, 3);
    assert_eq!(attempt(&st), (3, button_map_write_packet(3, 2)));
    let st = w.step(Ok(2));
    assert_eq!(attempt(&st), (4, button_map_write_packet(4, 3)));
    let st = w.step(Ok(3));
    assert!(matches!(st, WriteStep::Finished(Ok(()))));
    assert!(w.is_done());
}

#[test]
fn mismatch_gets_one_more_attempt() {
    let (mut w, _) = write_side_button_maps(2, 3);
    let st = w.step(Ok(5));
    assert_eq!(attempt(&st), (3, button_map_write_packet(3, 2)));
    let st = w.step(Ok(2));
    assert_eq!(attempt(&st).0, 4);
    let st = w.step(Ok(3));
    assert!(matches!(st, WriteStep::Finished(Ok(()))));
}

#[test]
fn two_mismatches_fail_with_bad_reply() {
    let (mut w, _) = write_side_button_maps(2, 3);
    w.step(Ok(2));
    let st = w.step(Ok(9));
    assert_eq!(attempt(&st).0, 4);
    let st = w.step(Ok(9));
    assert!(matches!(st, WriteStep::Finished(Err(HidError::BadReply))));
    assert!(w.is_done());
}

#[test]
fn attempt_error_ends_the_write() {
    let (mut w, _) = write_side_button_maps(2, 3);
    let st = w.step(Err(HidError::NotFound));
    assert!(matches!(st, WriteStep::Finished(Err(HidError::NotFound))));
    assert!(w.is_done());
}

#[test]
fn empty_write_succeeds_at_once() {
    let (w, st) = ButtonMapWriter::begin(vec![]);
    assert!(w.is_done());
    assert!(matches!(st, WriteStep::Finished(Ok(()))));
}

#[test]
fn factory_maps_are_back_and_forward() {
    let (mut w, st) = write_factory_button_maps();
    assert_eq!(attempt(&st), (3, button_map_write_packet(3, 5)));
    let st = w.step(Ok(5));
    assert_eq!(attempt(&st), (4, button_map_write_packet(4, 4)));
    assert_eq!(hardware_mouse_value(Action::Back), Some(5));
    assert_eq!(hardware_mouse_value(Action::Forward), Some(4));
}

#[test]
fn slot_values() {
    assert_eq!(slot_value(Slot::Side, Action::Left), SlotValue::Fixed(1));
    assert_eq!(slot_value(Slot::Extra, Action::Disabled), SlotValue::Fixed(0xff));
    assert_eq!(
        slot_value(Slot::Side, Action::Default),
        SlotValue::Current { btn_index: 3, fallback: 5 }
    );
    assert_eq!(
        slot_value(Slot::Extra, Action::Default),
        SlotValue::Current { btn_index: 4, fallback: 4 }
    );
    assert_eq!(slot_value(Slot::Side, Action::Copy), SlotValue::NeedsDaemon);
    assert_eq!(slot_value(Slot::Extra, Action::PlayPause), SlotValue::NeedsDaemon);
}

// ------------------------------------------------------------------ remap

#[test]
fn default_action_passes_button_through() {
    assert_eq!(action_events(Action::Default, 1, BTN_SIDE), vec![key(BTN_SIDE, 1)]);
    assert_eq!(action_events(Action::Default, 0, BTN_EXTRA), vec![key(BTN_EXTRA, 0)]);
    assert_eq!(action_events(Action::Default, 2, BTN_SIDE), vec![key(BTN_SIDE, 2)]);
}

#[test]
fn disabled_action_swallows() {
    assert!(action_events(Action::Disabled, 1, BTN_SIDE).is_empty());
    assert!(action_events(Action::Disabled, 0, BTN_SIDE).is_empty());
}

#[test]
fn mouse_button_actions_follow_value() {
    assert_eq!(action_events(Action::Left, 1, BTN_SIDE), vec![key(BTN_LEFT, 1)]);
    assert_eq!(action_events(Action::Left, 0, BTN_SIDE), vec![key(BTN_LEFT, 0)]);
    assert_eq!(action_events(Action::Back, 1, BTN_EXTRA), vec![key(BTN_SIDE, 1)]);
    assert_eq!(action_events(Action::Forward, 0, BTN_SIDE), vec![key(BTN_EXTRA, 0)]);
}

#[test]
fn shortcut_sends_combo_on_press_only() {
    assert_eq!(
        action_events(Action::Copy, 1, BTN_SIDE),
        vec![
            key(KEY_LEFTCTRL, 1),
            key(KEY_C, 1),
            key(KEY_C, 0),
            key(KEY_LEFTCTRL, 0),
            OutEvent::Syn
        ]
    );
    assert!(action_events(Action::Copy, 0, BTN_SIDE).is_empty());
    assert!(action_events(Action::Copy, 2, BTN_SIDE).is_empty());
    assert_eq!(
        action_events(Action::VolUp, 1, BTN_EXTRA),
        vec![key(KEY_VOLUMEUP, 1), key(KEY_VOLUMEUP, 0), OutEvent::Syn]
    );
}

#[test]
fn shortcuts_release_every_key() {
    for item in action_list() {
        let ev = action_events(item.id, 1, BTN_SIDE);
        let mut held: Vec<u16> = Vec::new();
        for e in &ev {
            if let OutEvent::Key { code, value } = e {
                if *value == 1 {
                    held.push(*code);
                } else if *value == 0 {
                    held.retain(|c| c != code);
                }
            }
        }
        let is_button = matches!(
            item.id,
            Action::Default
                | Action::Disabled
                | Action::Left
                | Action::Right
                | Action::Middle
                | Action::Back
                | Action::Forward
        );
        if !is_button {
            assert!(held.is_empty(), "{:?} leaves keys held", item.id);
            assert_eq!(ev.last(), Some(&OutEvent::Syn));
        }
    }
}

#[test]
fn routing_of_input_events() {
    let b = ButtonConfig { side: Action::Copy, extra: Action::Right };
    assert_eq!(route_input(&b, EV_KEY, BTN_LEFT, 1), Routed::Forward);
    assert_eq!(route_input(&b, EV_KEY, BTN_EXTRA, 1), Routed::Emit(vec![key(0x111, 1)]));
    assert_eq!(route_input(&b, EV_KEY, BTN_SIDE, 0), Routed::Emit(vec![]));
    assert_eq!(route_input(&b, EV_SYN, 0, 0), Routed::Emit(vec![OutEvent::Syn]));
    // Relative motion passes on.
    assert_eq!(route_input(&b, 0x02, 0, 5), Routed::Forward);
}

#[test]
fn default_buttons_change_nothing() {
    let b = ButtonConfig { side: Action::Default, extra: Action::Default };
    assert_eq!(route_input(&b, EV_KEY, BTN_SIDE, 1), Routed::Emit(vec![key(BTN_SIDE, 1)]));
    assert_eq!(route_input(&b, EV_KEY, BTN_EXTRA, 0), Routed::Emit(vec![key(BTN_EXTRA, 0)]));
}

// ----------------------------------------------------------------- status

#[test]
fn poll_state_takes_readings() {
    let mut p = PollState::new();
    assert!(p.dpi.is_none() && p.battery.is_none() && p.dpi_error.is_empty());
    p.apply(PollMsg::Dpi(Err("bad HID reply".to_string())));
    assert!(p.dpi.is_none());
    assert_eq!(p.dpi_error, "bad HID reply");
    p.apply(PollMsg::Dpi(Ok(DpiState { index: 0, current_dpi: 800, stages: vec![800] })));
    assert_eq!(p.dpi.as_ref().unwrap().current_dpi, 800);
    assert!(p.dpi_error.is_empty());
    let b = BatteryState { percent: 50, charging: false, known: true };
    p.apply(PollMsg::Battery(Ok(b)));
    assert_eq!(p.battery, Some(b));
    assert!(p.dpi.is_some());
    p.apply(PollMsg::Battery(Err("no".to_string())));
    assert_eq!(p.battery, None);
    assert!(p.dpi.is_some());
}

#[test]
fn poller_reads_battery_every_fifteenth_round() {
    assert_eq!(poll_round(0), (1, true));
    assert_eq!(poll_round(1), (2, false));
    assert_eq!(poll_round(14), (15, false));
    assert_eq!(poll_round(15), (16, true));
    assert_eq!(poll_round(u64::MAX), (0, false));
    let due = (0..45u64).filter(|&t| poll_round(t).1).count();
    assert_eq!(due, 3);
}

#[test]
fn battery_display_levels() {
    let s = |percent, charging, known| battery_show(Some(BatteryState { percent, charging, known }));
    assert_eq!(battery_show(None), BatteryShow::LedOnly);
    assert_eq!(s(0, false, false), BatteryShow::LedOnly);
    assert_eq!(
        s(10, false, true),
        BatteryShow::Level { percent: 10, charging: false, tone: BatteryTone::Low }
    );
    assert_eq!(s(15, false, true), BatteryShow::Level { percent: 15, charging: false, tone: BatteryTone::Low });
    assert_eq!(s(16, false, true), BatteryShow::Level { percent: 16, charging: false, tone: BatteryTone::Warn });
    assert_eq!(s(35, false, true), BatteryShow::Level { percent: 35, charging: false, tone: BatteryTone::Warn });
    assert_eq!(s(36, false, true), BatteryShow::Level { percent: 36, charging: false, tone: BatteryTone::Good });
    assert_eq!(s(5, true, true), BatteryShow::Level { percent: 5, charging: true, tone: BatteryTone::Good });
    // A percent without the known flag still shows.
    assert_eq!(s(20, false, false), BatteryShow::Level { percent: 20, charging: false, tone: BatteryTone::Warn });
}
