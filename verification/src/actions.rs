use vstd::prelude::*;

verus! {

/// Actions that can be mapped to the side buttons.
#[derive(Debug, Clone, Copy, PartialEq, Eq, Structural)]
pub enum Action {
    Default,
    Disabled,
    Left,
    Right,
    Middle,
    Back,
    Forward,
    Copy,
    Paste,
    Cut,
    Undo,
    VolUp,
    VolDown,
    Mute,
    PlayPause,
    NextTrack,
    PrevTrack,
    NewTab,
    CloseTab,
    Enter,
    Escape,
}

/// The value that the mouse firmware stores for an action, where the
/// firmware can perform it by itself (plain mouse buttons).
pub open spec fn spec_hardware_mouse_value(action: Action) -> Option<u16> {
    match action {
        Action::Disabled => Some(0xff),
        Action::Left => Some(1),
        Action::Right => Some(2),
        Action::Middle => Some(3),
        Action::Forward => Some(4),
        Action::Back => Some(5),
        _ => None,
    }
}

/// Hardware map value in the mouse firmware; `None` where the action cannot
/// be stored in the firmware (it needs the software remapper), or for
/// `Default`, which keeps what the firmware has.
pub fn hardware_mouse_value(action: Action) -> (r: Option<u16>)
    ensures
        r == spec_hardware_mouse_value(action),
{
    match action {
        Action::Default => None,
        Action::Disabled => Some(0xff),
        Action::Left => Some(1),
        Action::Right => Some(2),
        Action::Middle => Some(3),
        Action::Forward => Some(4),
        Action::Back => Some(5),
        _ => None,
    }
}

impl Default for Action {
    /// `Default`: keep what the firmware does.
    fn default() -> (a: Self)
        ensures
            a == Action::Default,
    {
        Action::Default
    }
}

/// An entry of the action list offered for a side button.
#[derive(Debug, Clone, Copy, PartialEq, Eq, Structural)]
pub struct ActionItem {
    pub id: Action,
}

/// Every action, in the order in which the action list offers them.
pub open spec fn spec_action_order() -> Seq<Action> {
    seq![
        Action::Default,
        Action::Disabled,
        Action::Left,
        Action::Right,
        Action::Middle,
        Action::Back,
        Action::Forward,
        Action::Copy,
        Action::Paste,
        Action::Cut,
        Action::Undo,
        Action::VolUp,
        Action::VolDown,
        Action::Mute,
        Action::PlayPause,
        Action::NextTrack,
        Action::PrevTrack,
        Action::NewTab,
        Action::CloseTab,
        Action::Enter,
        Action::Escape
    ]
}

/// The ordered list of actions for the action choosers.
pub fn action_list() -> (v: Vec<ActionItem>)
    ensures
        v@.len() == spec_action_order().len(),
        forall|i: int| 0 <= i < v@.len() ==> #[trigger] v@[i].id == spec_action_order()[i],
{
    let v: Vec<ActionItem> = vec![
        ActionItem { id: Action::Default },
        ActionItem { id: Action::Disabled },
        ActionItem { id: Action::Left },
        ActionItem { id: Action::Right },
        ActionItem { id: Action::Middle },
        ActionItem { id: Action::Back },
        ActionItem { id: Action::Forward },
        ActionItem { id: Action::Copy },
        ActionItem { id: Action::Paste },
        ActionItem { id: Action::Cut },
        ActionItem { id: Action::Undo },
        ActionItem { id: Action::VolUp },
        ActionItem { id: Action::VolDown },
        ActionItem { id: Action::Mute },
        ActionItem { id: Action::PlayPause },
        ActionItem { id: Action::NextTrack },
        ActionItem { id: Action::PrevTrack },
        ActionItem { id: Action::NewTab },
        ActionItem { id: Action::CloseTab },
        ActionItem { id: Action::Enter },
        ActionItem { id: Action::Escape },
    ];
    v
}

// -------------------------------------------------------------------- laws

/// The action list offers every action, each exactly once.
pub proof fn lemma_action_list_complete(a: Action)
    ensures
        spec_action_order().contains(a),
        forall|i: int, j: int|
            0 <= i < j < spec_action_order().len() ==> spec_action_order()[i]
                != spec_action_order()[j],
{
    let s = spec_action_order();
    match a {
        Action::Default => assert(s[0] == a),
        Action::Disabled => assert(s[1] == a),
        Action::Left => assert(s[2] == a),
        Action::Right => assert(s[3] == a),
        Action::Middle => assert(s[4] == a),
        Action::Back => assert(s[5] == a),
        Action::Forward => assert(s[6] == a),
        Action::Copy => assert(s[7] == a),
        Action::Paste => assert(s[8] == a),
        Action::Cut => assert(s[9] == a),
        Action::Undo => assert(s[10] == a),
        Action::VolUp => assert(s[11] == a),
        Action::VolDown => assert(s[12] == a),
        Action::Mute => assert(s[13] == a),
        Action::PlayPause => assert(s[14] == a),
        Action::NextTrack => assert(s[15] == a),
        Action::PrevTrack => assert(s[16] == a),
        Action::NewTab => assert(s[17] == a),
        Action::CloseTab => assert(s[18] == a),
        Action::Enter => assert(s[19] == a),
        Action::Escape => assert(s[20] == a),
    }
}

/// Distinct actions get distinct firmware values, so a firmware value names
/// the action it came from.
pub proof fn lemma_hardware_values_distinct(a: Action, b: Action)
    requires
        spec_hardware_mouse_value(a) is Some,
        spec_hardware_mouse_value(a) == spec_hardware_mouse_value(b),
    ensures
        a == b,
{
}

/// Exactly the plain mouse buttons and `Disabled` can be stored in the
/// firmware; `Default` keeps what the firmware has.
pub proof fn lemma_hardware_actions(a: Action)
    ensures
        spec_hardware_mouse_value(a) is Some <==> (a == Action::Disabled || a == Action::Left
            || a == Action::Right || a == Action::Middle || a == Action::Back || a
            == Action::Forward),
{
}

/// The firmware values of the actions the firmware can do by itself:
/// 0xFF disables the button, 1 to 3 are the left, right and middle buttons,
/// 4 is Forward (the extra button) and 5 is Back (the side button).
pub proof fn lemma_hardware_value_table()
    ensures
        spec_hardware_mouse_value(Action::Disabled) == Some(0xffu16),
        spec_hardware_mouse_value(Action::Left) == Some(1u16),
        spec_hardware_mouse_value(Action::Right) == Some(2u16),
        spec_hardware_mouse_value(Action::Middle) == Some(3u16),
        spec_hardware_mouse_value(Action::Forward) == Some(4u16),
        spec_hardware_mouse_value(Action::Back) == Some(5u16),
        spec_hardware_mouse_value(Action::Default) is None,
{
}

} // verus!
