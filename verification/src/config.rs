//! The user's settings: what the side buttons do, whether the software
//! remapper runs, whether the maps were saved to the mouse, and the language.

use vstd::prelude::*;
use crate::actions::Action;

verus! {

/// File name of the settings inside the settings directory.
pub const CONFIG_NAME: &'static str = "config.json";

/// Language of the user interface.
#[derive(Debug, Clone, Copy, PartialEq, Eq, Structural)]
pub enum Lang {
    En,
}

impl Default for Lang {
    /// English is the default language.
    fn default() -> (l: Self)
        ensures
            l == Lang::En,
    {
        Lang::En
    }
}

#[derive(Debug, Clone, Copy, PartialEq, Eq, Structural)]
pub struct ButtonConfig {
    /// Rear side button (firmware index 3, default Back/5).
    pub side: Action,
    /// Front side button (firmware index 4, default Forward/4).
    pub extra: Action,
}

#[derive(Debug, Clone, Copy, PartialEq, Eq, Structural)]
pub struct Config {
    pub buttons: ButtonConfig,
    /// Run the software remapper (needed for actions the firmware cannot do).
    pub software_remap: bool,
    /// Whether the user last saved the maps to the mouse firmware.
    pub saved_to_mouse: bool,
    /// UI language (English by default).
    pub language: Lang,
}

/// Value of `software_remap` where the settings leave it out.
pub fn default_true() -> (b: bool)
    ensures
        b,
{
    true
}

/// Both side buttons keep what the firmware does.
pub open spec fn default_buttons() -> ButtonConfig {
    ButtonConfig { side: Action::Default, extra: Action::Default }
}

pub open spec fn spec_default_config() -> Config {
    Config {
        buttons: default_buttons(),
        software_remap: true,
        saved_to_mouse: false,
        language: Lang::En,
    }
}

impl Default for Config {
    /// Side buttons as the firmware has them, remapper on, nothing saved to
    /// the mouse, English.
    fn default() -> (c: Self)
        ensures
            c == spec_default_config(),
    {
        Config {
            buttons: ButtonConfig { side: Action::Default, extra: Action::Default },
            software_remap: true,
            saved_to_mouse: false,
            language: Lang::En,
        }
    }
}

impl Config {
    /// Resetting the software settings: both side buttons back to the
    /// firmware's own, and the remapper on; the rest stays.
    pub fn reset_software(&mut self)
        ensures
            final(self).buttons == default_buttons(),
            final(self).software_remap,
            final(self).saved_to_mouse == old(self).saved_to_mouse,
            final(self).language == old(self).language,
    {
        self.buttons = ButtonConfig { side: Action::Default, extra: Action::Default };
        self.software_remap = true;
    }

    /// Records that the firmware maps were reset to the factory ones: both
    /// side buttons back to the firmware's own, saved to the mouse.
    pub fn record_firmware_reset(&mut self)
        ensures
            final(self).buttons == default_buttons(),
            final(self).saved_to_mouse,
            final(self).software_remap == old(self).software_remap,
            final(self).language == old(self).language,
    {
        self.buttons = ButtonConfig { side: Action::Default, extra: Action::Default };
        self.saved_to_mouse = true;
    }

    /// Records that the current maps were saved to the mouse.
    pub fn record_saved_to_mouse(&mut self)
        ensures
            *final(self) == (Config { saved_to_mouse: true, ..*old(self) }),
    {
        self.saved_to_mouse = true;
    }
}

} // verus!
