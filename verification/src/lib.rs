//! Shared logic for the 8BitDo Retro R8 mouse adapter: button actions,
//! configuration, the vendor HID protocol and the software remapper.

pub mod actions;
pub mod config;
pub mod discovery;
pub mod firmware;
pub mod hid;
pub mod remap;
pub mod status;

pub use actions::{action_list, hardware_mouse_value, Action, ActionItem};
pub use config::{default_true, ButtonConfig, Config, Lang, CONFIG_NAME};
pub use discovery::{is_hidraw_name, is_vendor_config_descriptor, uevent_names_adapter};
pub use firmware::{
    slot_value, write_factory_button_maps, write_side_button_maps, ButtonMapWriter, Slot,
    SlotValue, WriteStep, FACTORY_EXTRA_MAP, FACTORY_SIDE_MAP, MAX_ATTEMPTS,
};
pub use hid::{
    battery_request, button_map_request, button_map_write_packet, default_dpi_stages,
    dpi_request, frame_report, read_battery, read_button_map, read_dpi, stage_color,
    stage_color_hex, BatteryState, DpiState, HidError, BTN_INDEX_EXTRA, BTN_INDEX_SIDE, PRODUCT,
    REPORT_LEN, VENDOR,
};
pub use remap::{action_events, route_input, OutEvent, Routed, EV_KEY, EV_SYN};
pub use status::{battery_show, poll_round, BatteryShow, BatteryTone, PollMsg, PollState};
