//! The software remapper: which input events of the mouse pass through
//! unchanged, and which events a side button's action turns into.
//!
//! Event types and key codes are those of the Linux input layer.

use vstd::prelude::*;
use crate::actions::Action;
use crate::config::ButtonConfig;

verus! {

/// Event type of a synchronization report.
pub const EV_SYN: u16 = 0x00;

/// Event type of a key or button.
pub const EV_KEY: u16 = 0x01;

pub const KEY_ESC: u16 = 1;

pub const KEY_W: u16 = 17;

pub const KEY_T: u16 = 20;

pub const KEY_ENTER: u16 = 28;

pub const KEY_LEFTCTRL: u16 = 29;

pub const KEY_Z: u16 = 44;

pub const KEY_X: u16 = 45;

pub const KEY_C: u16 = 46;

pub const KEY_V: u16 = 47;

pub const KEY_MUTE: u16 = 113;

pub const KEY_VOLUMEDOWN: u16 = 114;

pub const KEY_VOLUMEUP: u16 = 115;

pub const KEY_NEXTSONG: u16 = 163;

pub const KEY_PLAYPAUSE: u16 = 164;

pub const KEY_PREVIOUSSONG: u16 = 165;

pub const BTN_LEFT: u16 = 0x110;

pub const BTN_RIGHT: u16 = 0x111;

pub const BTN_MIDDLE: u16 = 0x112;

pub const BTN_SIDE: u16 = 0x113;

pub const BTN_EXTRA: u16 = 0x114;

/// Key value of a press.
pub const PRESS: i32 = 1;

/// Key value of a release.
pub const RELEASE: i32 = 0;

/// An event that the remapper emits on its virtual device.
#[derive(Debug, Clone, Copy, PartialEq, Eq, Structural)]
pub enum OutEvent {
    /// A key or button event with this code and value.
    Key { code: u16, value: i32 },
    /// A synchronization report.
    Syn,
}

pub open spec fn key(code: u16, value: i32) -> OutEvent {
    OutEvent::Key { code, value }
}

/// A key pressed, released and reported.
pub open spec fn tap(code: u16) -> Seq<OutEvent> {
    seq![key(code, PRESS), key(code, RELEASE), OutEvent::Syn]
}

/// A key pressed with a modifier held, both released in reverse order and
/// reported.
pub open spec fn combo(modifier: u16, code: u16) -> Seq<OutEvent> {
    seq![
        key(modifier, PRESS),
        key(code, PRESS),
        key(code, RELEASE),
        key(modifier, RELEASE),
        OutEvent::Syn
    ]
}

/// The mouse button that an action stands for, where it is one.
pub open spec fn action_button(action: Action) -> Option<u16> {
    match action {
        Action::Left => Some(BTN_LEFT),
        Action::Right => Some(BTN_RIGHT),
        Action::Middle => Some(BTN_MIDDLE),
        Action::Back => Some(BTN_SIDE),
        Action::Forward => Some(BTN_EXTRA),
        _ => None,
    }
}

/// The keys that a keyboard action sends.
pub open spec fn shortcut_events(action: Action) -> Seq<OutEvent> {
    match action {
        Action::Copy => combo(KEY_LEFTCTRL, KEY_C),
        Action::Paste => combo(KEY_LEFTCTRL, KEY_V),
        Action::Cut => combo(KEY_LEFTCTRL, KEY_X),
        Action::Undo => combo(KEY_LEFTCTRL, KEY_Z),
        Action::NewTab => combo(KEY_LEFTCTRL, KEY_T),
        Action::CloseTab => combo(KEY_LEFTCTRL, KEY_W),
        Action::VolUp => tap(KEY_VOLUMEUP),
        Action::VolDown => tap(KEY_VOLUMEDOWN),
        Action::Mute => tap(KEY_MUTE),
        Action::PlayPause => tap(KEY_PLAYPAUSE),
        Action::NextTrack => tap(KEY_NEXTSONG),
        Action::PrevTrack => tap(KEY_PREVIOUSSONG),
        Action::Enter => tap(KEY_ENTER),
        Action::Escape => tap(KEY_ESC),
        _ => seq![],
    }
}

/// A keyboard action: one that sends keys rather than a mouse button.
pub open spec fn is_shortcut(action: Action) -> bool {
    action != Action::Default && action != Action::Disabled && action_button(action) is None
}

/// What a side button event with key value `value` becomes when the button
/// carries `action`: `Default` passes the button on as it is; `Disabled`
/// swallows it; a mouse button action sends that button with the same
/// value; a keyboard action sends its keys once, on the press only.
pub open spec fn spec_action_events(action: Action, value: i32, pressed: u16) -> Seq<OutEvent> {
    if action == Action::Default {
        seq![key(pressed, value)]
    } else if action == Action::Disabled {
        seq![]
    } else if let Some(b) = action_button(action) {
        seq![key(b, value)]
    } else if value == PRESS {
        shortcut_events(action)
    } else {
        seq![]
    }
}

fn push_tap(out: &mut Vec<OutEvent>, code: u16)
    ensures
        final(out)@ == old(out)@ + tap(code),
{
    out.push(OutEvent::Key { code, value: PRESS });
    out.push(OutEvent::Key { code, value: RELEASE });
    out.push(OutEvent::Syn);
    assert(final(out)@ =~= old(out)@ + tap(code));
}

fn push_combo(out: &mut Vec<OutEvent>, modifier: u16, code: u16)
    ensures
        final(out)@ == old(out)@ + combo(modifier, code),
{
    out.push(OutEvent::Key { code: modifier, value: PRESS });
    out.push(OutEvent::Key { code, value: PRESS });
    out.push(OutEvent::Key { code, value: RELEASE });
    out.push(OutEvent::Key { code: modifier, value: RELEASE });
    out.push(OutEvent::Syn);
    assert(final(out)@ =~= old(out)@ + combo(modifier, code));
}

/// The events that a side button event becomes under `action`; `pressed`
/// is the code of the button that was pressed.
pub fn action_events(action: Action, value: i32, pressed: u16) -> (out: Vec<OutEvent>)
    ensures
        out@ == spec_action_events(action, value, pressed),
{
    let mut out: Vec<OutEvent> = Vec::new();
    match action {
        Action::Default => out.push(OutEvent::Key { code: pressed, value }),
        Action::Disabled => {},
        Action::Left => out.push(OutEvent::Key { code: BTN_LEFT, value }),
        Action::Right => out.push(OutEvent::Key { code: BTN_RIGHT, value }),
        Action::Middle => out.push(OutEvent::Key { code: BTN_MIDDLE, value }),
        Action::Back => out.push(OutEvent::Key { code: BTN_SIDE, value }),
        Action::Forward => out.push(OutEvent::Key { code: BTN_EXTRA, value }),
        other => {
            if value == PRESS {
                match other {
                    Action::Copy => push_combo(&mut out, KEY_LEFTCTRL, KEY_C),
                    Action::Paste => push_combo(&mut out, KEY_LEFTCTRL, KEY_V),
                    Action::Cut => push_combo(&mut out, KEY_LEFTCTRL, KEY_X),
                    Action::Undo => push_combo(&mut out, KEY_LEFTCTRL, KEY_Z),
                    Action::NewTab => push_combo(&mut out, KEY_LEFTCTRL, KEY_T),
                    Action::CloseTab => push_combo(&mut out, KEY_LEFTCTRL, KEY_W),
                    Action::VolUp => push_tap(&mut out, KEY_VOLUMEUP),
                    Action::VolDown => push_tap(&mut out, KEY_VOLUMEDOWN),
                    Action::Mute => push_tap(&mut out, KEY_MUTE),
                    Action::PlayPause => push_tap(&mut out, KEY_PLAYPAUSE),
                    Action::NextTrack => push_tap(&mut out, KEY_NEXTSONG),
                    Action::PrevTrack => push_tap(&mut out, KEY_PREVIOUSSONG),
                    Action::Enter => push_tap(&mut out, KEY_ENTER),
                    Action::Escape => push_tap(&mut out, KEY_ESC),
                    _ => {},
                }
            }
        },
    }
    assert(out@ =~= spec_action_events(action, value, pressed));
    out
}

/// What the remapper does with one input event of the mouse.
#[derive(Debug, Clone, PartialEq, Eq)]
pub enum Routed {
    /// Pass the event on unchanged.
    Forward,
    /// Emit these events in its place.
    Emit(Vec<OutEvent>),
}

/// Key events of the two side buttons become what their actions say; a
/// synchronization report is emitted afresh; every other event passes on.
pub open spec fn spec_route(buttons: ButtonConfig, event_type: u16, code: u16, value: i32) -> Option<
    Seq<OutEvent>,
> {
    if event_type == EV_KEY {
        if code == BTN_SIDE {
            Some(spec_action_events(buttons.side, value, BTN_SIDE))
        } else if code == BTN_EXTRA {
            Some(spec_action_events(buttons.extra, value, BTN_EXTRA))
        } else {
            None
        }
    } else if event_type == EV_SYN {
        Some(seq![OutEvent::Syn])
    } else {
        None
    }
}

/// Routes one input event of the mouse (its type, code and value).
pub fn route_input(buttons: &ButtonConfig, event_type: u16, code: u16, value: i32) -> (r: Routed)
    ensures
        match spec_route(*buttons, event_type, code, value) {
            None => r is Forward,
            Some(s) => r matches Routed::Emit(v) && v@ == s,
        },
{
    if event_type == EV_KEY {
        if code == BTN_SIDE {
            Routed::Emit(action_events(buttons.side, value, BTN_SIDE))
        } else if code == BTN_EXTRA {
            Routed::Emit(action_events(buttons.extra, value, BTN_EXTRA))
        } else {
            Routed::Forward
        }
    } else if event_type == EV_SYN {
        let mut v: Vec<OutEvent> = Vec::new();
        v.push(OutEvent::Syn);
        assert(v@ =~= seq![OutEvent::Syn]);
        Routed::Emit(v)
    } else {
        Routed::Forward
    }
}

// -------------------------------------------------------------------- laws

/// `e` presses key `c`.
pub open spec fn presses(e: OutEvent, c: u16) -> bool {
    e == key(c, PRESS)
}

/// `e` releases key `c`.
pub open spec fn releases(e: OutEvent, c: u16) -> bool {
    e == key(c, RELEASE)
}

/// Every key that `s` presses is released later in `s`, every key that it
/// releases was pressed before in `s`, and `s` ends with a report.
pub open spec fn balanced(s: Seq<OutEvent>) -> bool {
    &&& forall|i: int, c: u16|
        0 <= i < s.len() && #[trigger] presses(s[i], c) ==> exists|j: int|
            i < j < s.len() && #[trigger] releases(s[j], c)
    &&& forall|j: int, c: u16|
        0 <= j < s.len() && #[trigger] releases(s[j], c) ==> exists|i: int|
            0 <= i < j && #[trigger] presses(s[i], c)
    &&& s.len() > 0 ==> s.last() == OutEvent::Syn
}

proof fn lemma_tap_balanced(code: u16)
    ensures
        balanced(tap(code)),
{
    let s = tap(code);
    assert forall|i: int, c: u16| 0 <= i < s.len() && #[trigger] presses(s[i], c) implies exists|
        j: int,
    | i < j < s.len() && #[trigger] releases(s[j], c) by {
        assert(releases(s[1], code));
    }
    assert forall|j: int, c: u16| 0 <= j < s.len() && #[trigger] releases(s[j], c) implies exists|
        i: int,
    | 0 <= i < j && #[trigger] presses(s[i], c) by {
        assert(presses(s[0], code));
    }
}

proof fn lemma_combo_balanced(modifier: u16, code: u16)
    requires
        modifier != code,
    ensures
        balanced(combo(modifier, code)),
{
    let s = combo(modifier, code);
    assert forall|i: int, c: u16| 0 <= i < s.len() && #[trigger] presses(s[i], c) implies exists|
        j: int,
    | i < j < s.len() && #[trigger] releases(s[j], c) by {
        assert(releases(s[2], code));
        assert(releases(s[3], modifier));
    }
    assert forall|j: int, c: u16| 0 <= j < s.len() && #[trigger] releases(s[j], c) implies exists|
        i: int,
    | 0 <= i < j && #[trigger] presses(s[i], c) by {
        assert(presses(s[0], modifier));
        assert(presses(s[1], code));
    }
}

/// A keyboard action sends its keys on a press only, and what it sends
/// releases every key it presses and ends with a report: no key is left
/// held.
pub proof fn lemma_shortcuts_release_their_keys(action: Action, value: i32, pressed: u16)
    requires
        is_shortcut(action),
    ensures
        value != PRESS ==> spec_action_events(action, value, pressed).len() == 0,
        value == PRESS ==> spec_action_events(action, value, pressed).len() > 0,
        balanced(spec_action_events(action, value, pressed)),
{
    if value == PRESS {
        match action {
            Action::Copy | Action::Paste | Action::Cut | Action::Undo | Action::NewTab
            | Action::CloseTab => {
                lemma_combo_balanced(KEY_LEFTCTRL, KEY_C);
                lemma_combo_balanced(KEY_LEFTCTRL, KEY_V);
                lemma_combo_balanced(KEY_LEFTCTRL, KEY_X);
                lemma_combo_balanced(KEY_LEFTCTRL, KEY_Z);
                lemma_combo_balanced(KEY_LEFTCTRL, KEY_T);
                lemma_combo_balanced(KEY_LEFTCTRL, KEY_W);
            },
            _ => {
                lemma_tap_balanced(KEY_VOLUMEUP);
                lemma_tap_balanced(KEY_VOLUMEDOWN);
                lemma_tap_balanced(KEY_MUTE);
                lemma_tap_balanced(KEY_PLAYPAUSE);
                lemma_tap_balanced(KEY_NEXTSONG);
                lemma_tap_balanced(KEY_PREVIOUSSONG);
                lemma_tap_balanced(KEY_ENTER);
                lemma_tap_balanced(KEY_ESC);
            },
        }
    }
}

/// With `Default` on both side buttons the remapper changes nothing: each
/// key event passes on as it came, and each report is emitted again.
pub proof fn lemma_default_passes_through(event_type: u16, code: u16, value: i32)
    ensures
        ({
            let buttons = ButtonConfig { side: Action::Default, extra: Action::Default };
            &&& event_type == EV_KEY ==> match spec_route(buttons, event_type, code, value) {
                None => true,
                Some(s) => s == seq![key(code, value)],
            }
            &&& event_type == EV_SYN ==> spec_route(buttons, event_type, code, value) == Some(
                seq![OutEvent::Syn],
            )
        }),
{
}

/// A mouse button action follows the side button: a press becomes a press
/// of that button and a release a release.
pub proof fn lemma_button_actions_follow(action: Action, value: i32, pressed: u16)
    requires
        action_button(action) is Some,
    ensures
        spec_action_events(action, value, pressed) == seq![key(action_button(action)->0, value)],
{
}

/// Events other than side button keys and reports pass on unchanged.
pub proof fn lemma_other_events_untouched(buttons: ButtonConfig, event_type: u16, code: u16, value: i32)
    requires
        event_type != EV_SYN,
        code != BTN_SIDE && code != BTN_EXTRA || event_type != EV_KEY,
    ensures
        spec_route(buttons, event_type, code, value) is None,
{
}

/// The keys each keyboard action sends on a press, whatever button was
/// pressed: the editing and tab actions hold Ctrl around their letter (Copy
/// C, Paste V, Cut X, Undo Z, New tab T, Close tab W); the media, Enter and
/// Escape actions tap their own key.
pub proof fn lemma_shortcut_keys(pressed: u16)
    ensures
        spec_action_events(Action::Copy, PRESS, pressed) == seq![key(KEY_LEFTCTRL, 1), key(KEY_C, 1), key(KEY_C, 0), key(KEY_LEFTCTRL, 0), OutEvent::Syn],
        spec_action_events(Action::Paste, PRESS, pressed) == seq![key(KEY_LEFTCTRL, 1), key(KEY_V, 1), key(KEY_V, 0), key(KEY_LEFTCTRL, 0), OutEvent::Syn],
        spec_action_events(Action::Cut, PRESS, pressed) == seq![key(KEY_LEFTCTRL, 1), key(KEY_X, 1), key(KEY_X, 0), key(KEY_LEFTCTRL, 0), OutEvent::Syn],
        spec_action_events(Action::Undo, PRESS, pressed) == seq![key(KEY_LEFTCTRL, 1), key(KEY_Z, 1), key(KEY_Z, 0), key(KEY_LEFTCTRL, 0), OutEvent::Syn],
        spec_action_events(Action::NewTab, PRESS, pressed) == seq![key(KEY_LEFTCTRL, 1), key(KEY_T, 1), key(KEY_T, 0), key(KEY_LEFTCTRL, 0), OutEvent::Syn],
        spec_action_events(Action::CloseTab, PRESS, pressed) == seq![key(KEY_LEFTCTRL, 1), key(KEY_W, 1), key(KEY_W, 0), key(KEY_LEFTCTRL, 0), OutEvent::Syn],
        spec_action_events(Action::VolUp, PRESS, pressed) == seq![key(KEY_VOLUMEUP, 1), key(KEY_VOLUMEUP, 0), OutEvent::Syn],
        spec_action_events(Action::VolDown, PRESS, pressed) == seq![key(KEY_VOLUMEDOWN, 1), key(KEY_VOLUMEDOWN, 0), OutEvent::Syn],
        spec_action_events(Action::Mute, PRESS, pressed) == seq![key(KEY_MUTE, 1), key(KEY_MUTE, 0), OutEvent::Syn],
        spec_action_events(Action::PlayPause, PRESS, pressed) == seq![key(KEY_PLAYPAUSE, 1), key(KEY_PLAYPAUSE, 0), OutEvent::Syn],
        spec_action_events(Action::NextTrack, PRESS, pressed) == seq![key(KEY_NEXTSONG, 1), key(KEY_NEXTSONG, 0), OutEvent::Syn],
        spec_action_events(Action::PrevTrack, PRESS, pressed) == seq![key(KEY_PREVIOUSSONG, 1), key(KEY_PREVIOUSSONG, 0), OutEvent::Syn],
        spec_action_events(Action::Enter, PRESS, pressed) == seq![key(KEY_ENTER, 1), key(KEY_ENTER, 0), OutEvent::Syn],
        spec_action_events(Action::Escape, PRESS, pressed) == seq![key(KEY_ESC, 1), key(KEY_ESC, 0), OutEvent::Syn],
{
}

/// Two different keyboard actions never send the same events on a press.
pub proof fn lemma_shortcuts_distinct(a: Action, b: Action, p: u16, q: u16)
    requires
        is_shortcut(a),
        is_shortcut(b),
        a != b,
    ensures
        spec_action_events(a, PRESS, p) != spec_action_events(b, PRESS, q),
{
    lemma_shortcut_keys(p);
    lemma_shortcut_keys(q);
    let sa = spec_action_events(a, PRESS, p);
    let sb = spec_action_events(b, PRESS, q);
    if sa.len() == sb.len() {
        if sa.len() == 5 {
            assert(sa[1] != sb[1]);
        } else {
            assert(sa[0] != sb[0]);
        }
    }
}

/// The mouse button each mouse button action sends: Left, Right and Middle
/// their own buttons, Back the side button and Forward the extra button.
pub proof fn lemma_button_action_targets(value: i32, pressed: u16)
    ensures
        spec_action_events(Action::Left, value, pressed) == seq![key(BTN_LEFT, value)],
        spec_action_events(Action::Right, value, pressed) == seq![key(BTN_RIGHT, value)],
        spec_action_events(Action::Middle, value, pressed) == seq![key(BTN_MIDDLE, value)],
        spec_action_events(Action::Back, value, pressed) == seq![key(BTN_SIDE, value)],
        spec_action_events(Action::Forward, value, pressed) == seq![key(BTN_EXTRA, value)],
        spec_action_events(Action::Disabled, value, pressed).len() == 0,
        spec_action_events(Action::Default, value, pressed) == seq![key(pressed, value)],
{
}

/// Each side button follows its own action only: the rear button's events
/// do not depend on the front button's action and the other way round, and
/// a button left at `Default` passes its key events on unchanged whatever
/// the other button does.
pub proof fn lemma_buttons_route_independently(
    b1: ButtonConfig,
    b2: ButtonConfig,
    value: i32,
)
    ensures
        b1.side == b2.side ==> spec_route(b1, EV_KEY, BTN_SIDE, value) == spec_route(
            b2,
            EV_KEY,
            BTN_SIDE,
            value,
        ),
        b1.extra == b2.extra ==> spec_route(b1, EV_KEY, BTN_EXTRA, value) == spec_route(
            b2,
            EV_KEY,
            BTN_EXTRA,
            value,
        ),
        b1.side == Action::Default ==> spec_route(b1, EV_KEY, BTN_SIDE, value) == Some(
            seq![key(BTN_SIDE, value)],
        ),
        b1.extra == Action::Default ==> spec_route(b1, EV_KEY, BTN_EXTRA, value) == Some(
            seq![key(BTN_EXTRA, value)],
        ),
{
}

} // verus!
