//! What the settings window keeps of the mouse's live state: the latest DPI
//! and battery readings from the background poller, when the poller reads
//! the battery, and how a battery reading is shown.

use vstd::prelude::*;
use crate::hid::{BatteryState, DpiState};

verus! {

/// The poller reads the battery on one round in this many.
pub const BATTERY_EVERY: u64 = 15;

/// At or below this percent a discharging battery is low.
pub const BATTERY_LOW: u8 = 15;

/// At or below this percent a discharging battery is getting low.
pub const BATTERY_WARN: u8 = 35;

/// A reading that the background poller hands to the window.
pub enum PollMsg {
    Dpi(Result<DpiState, String>),
    Battery(Result<BatteryState, String>),
}

/// The latest readings the window shows.
pub struct PollState {
    pub dpi: Option<DpiState>,
    /// Why the last DPI reading failed; empty after a good one.
    pub dpi_error: String,
    pub battery: Option<BatteryState>,
}

impl PollState {
    /// Nothing read yet.
    pub fn new() -> (s: PollState)
        ensures
            s.dpi is None,
            s.dpi_error@ == Seq::<char>::empty(),
            s.battery is None,
    {
        PollState { dpi: None, dpi_error: String::new(), battery: None }
    }

    /// Takes in one reading: a DPI reading replaces the DPI state (or, where
    /// it failed, clears it and keeps the reason); a battery reading replaces
    /// the battery state (or clears it where it failed).
    pub fn apply(&mut self, msg: PollMsg)
        ensures
            match msg {
                PollMsg::Dpi(Ok(s)) => {
                    &&& final(self).dpi == Some(s)
                    &&& final(self).dpi_error@ == Seq::<char>::empty()
                    &&& final(self).battery == old(self).battery
                },
                PollMsg::Dpi(Err(e)) => {
                    &&& final(self).dpi is None
                    &&& final(self).dpi_error@ == e@
                    &&& final(self).battery == old(self).battery
                },
                PollMsg::Battery(Ok(b)) => {
                    &&& final(self).battery == Some(b)
                    &&& final(self).dpi == old(self).dpi
                    &&& final(self).dpi_error@ == old(self).dpi_error@
                },
                PollMsg::Battery(Err(_)) => {
                    &&& final(self).battery is None
                    &&& final(self).dpi == old(self).dpi
                    &&& final(self).dpi_error@ == old(self).dpi_error@
                },
            },
    {
        match msg {
            PollMsg::Dpi(Ok(s)) => {
                self.dpi = Some(s);
                self.dpi_error = String::new();
            },
            PollMsg::Dpi(Err(e)) => {
                self.dpi = None;
                self.dpi_error = e;
            },
            PollMsg::Battery(Ok(b)) => {
                self.battery = Some(b);
            },
            PollMsg::Battery(Err(_)) => {
                self.battery = None;
            },
        }
    }
}

/// Whether poll round `n` reads the battery too.
pub open spec fn battery_due(n: u64) -> bool {
    n % BATTERY_EVERY == 1
}

/// The poller's next round number, and whether that round reads the battery
/// as well as the DPI (one round in `BATTERY_EVERY`, starting with the
/// first).
pub fn poll_round(tick: u64) -> (r: (u64, bool))
    ensures
        r.0 == (if tick == u64::MAX { 0 } else { tick + 1 }),
        r.1 == battery_due(r.0),
{
    let next = tick.wrapping_add(1);
    (next, next % BATTERY_EVERY == 1)
}

/// How full and how urgent a battery reading looks.
#[derive(Debug, Clone, Copy, PartialEq, Eq, Structural)]
pub enum BatteryTone {
    /// Charging, or above `BATTERY_WARN` percent.
    Good,
    /// Above `BATTERY_LOW`, at most `BATTERY_WARN` percent.
    Warn,
    /// At most `BATTERY_LOW` percent.
    Low,
}

/// How the window shows the battery.
#[derive(Debug, Clone, Copy, PartialEq, Eq, Structural)]
pub enum BatteryShow {
    /// No usable reading: the mouse shows its level on its LED only.
    LedOnly,
    /// A level, with a charging mark where it charges.
    Level { percent: u8, charging: bool, tone: BatteryTone },
}

pub open spec fn spec_battery_show(battery: Option<BatteryState>) -> BatteryShow {
    match battery {
        Some(b) => if b.known || b.percent > 0 {
            BatteryShow::Level {
                percent: b.percent,
                charging: b.charging,
                tone: if b.charging {
                    BatteryTone::Good
                } else if b.percent <= BATTERY_LOW {
                    BatteryTone::Low
                } else if b.percent <= BATTERY_WARN {
                    BatteryTone::Warn
                } else {
                    BatteryTone::Good
                },
            }
        } else {
            BatteryShow::LedOnly
        },
        None => BatteryShow::LedOnly,
    }
}

/// How to show the latest battery reading: a level where the mouse reported
/// one, the LED-only note where it reported nothing or no reading came.
pub fn battery_show(battery: Option<BatteryState>) -> (r: BatteryShow)
    ensures
        r == spec_battery_show(battery),
{
    match battery {
        Some(b) => {
            if b.known || b.percent > 0 {
                let tone = if b.charging {
                    BatteryTone::Good
                } else if b.percent <= BATTERY_LOW {
                    BatteryTone::Low
                } else if b.percent <= BATTERY_WARN {
                    BatteryTone::Warn
                } else {
                    BatteryTone::Good
                };
                BatteryShow::Level { percent: b.percent, charging: b.charging, tone }
            } else {
                BatteryShow::LedOnly
            }
        },
        None => BatteryShow::LedOnly,
    }
}

// -------------------------------------------------------------------- laws

/// The first poll round reads the battery, and from a round that reads it
/// the next `BATTERY_EVERY - 1` rounds do not, while the one after them does.
pub proof fn lemma_battery_schedule(n: u64, k: u64)
    requires
        n as int + BATTERY_EVERY as int <= u64::MAX as int,
        0 < k < BATTERY_EVERY,
    ensures
        battery_due(1),
        battery_due(n) ==> !battery_due((n + k) as u64),
        battery_due(n) ==> battery_due((n + BATTERY_EVERY) as u64),
{
}

/// The poller reads the battery on rounds 1, 16, 31, ...: of any
/// `BATTERY_EVERY` rounds in a row (before the counter wraps), exactly one.
pub proof fn lemma_battery_once_per_cycle(tick: u64)
    requires
        tick < u64::MAX,
    ensures
        (tick + 1) % (BATTERY_EVERY as int) == 1 <==> (tick as int) % (BATTERY_EVERY as int) == 0,
{
}

/// How a battery reading is shown, by its fields: a reading with a level
/// (known, or a nonzero percent) shows that percent and charging mark; a
/// charging battery is always Good, at any percent; a discharging one is Low
/// at or below 15 percent, Warn from 16 to 35 percent, Good above; a reading
/// without a level, or none at all, shows the LED-only note.
pub proof fn lemma_battery_show_by_fields(b: BatteryState)
    ensures
        (b.known || b.percent > 0) ==> spec_battery_show(Some(b)) is Level
            && spec_battery_show(Some(b))->percent == b.percent
            && spec_battery_show(Some(b))->charging == b.charging,
        (b.known || b.percent > 0) && b.charging ==> spec_battery_show(Some(b)) == (
        BatteryShow::Level { percent: b.percent, charging: true, tone: BatteryTone::Good }),
        (b.known || b.percent > 0) && !b.charging && b.percent <= 15 ==> spec_battery_show(
            Some(b),
        )->tone == BatteryTone::Low,
        (b.known || b.percent > 0) && !b.charging && 15 < b.percent <= 35 ==> spec_battery_show(
            Some(b),
        )->tone == BatteryTone::Warn,
        (b.known || b.percent > 0) && !b.charging && b.percent > 35 ==> spec_battery_show(
            Some(b),
        )->tone == BatteryTone::Good,
        !(b.known || b.percent > 0) ==> spec_battery_show(Some(b)) == BatteryShow::LedOnly,
        spec_battery_show(None) == BatteryShow::LedOnly,
{
}

/// A lower percent never looks less urgent, for a discharging battery
/// with a reading.
pub proof fn lemma_tone_monotone(a: BatteryState, b: BatteryState)
    requires
        !a.charging,
        !b.charging,
        a.known,
        b.known,
        a.percent <= b.percent,
    ensures
        spec_battery_show(Some(b))->tone == BatteryTone::Low ==> spec_battery_show(Some(a))->tone
            == BatteryTone::Low,
        spec_battery_show(Some(b))->tone == BatteryTone::Warn ==> spec_battery_show(Some(a))->tone
            != BatteryTone::Good,
{
}

} // verus!
