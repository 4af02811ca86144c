//! The hotkey table: one key combination for each action, chosen by OS family.

use vstd::prelude::*;

verus! {

/// The OS families whose behaviour differs.
#[derive(Clone, Copy, Debug, PartialEq, Eq, Structural)]
pub enum OsFamily {
    MacOs,
    Windows,
    Linux,
}

/// What a hotkey asks for.
#[derive(Clone, Copy, Debug, PartialEq, Eq, Structural)]
pub enum Action {
    ToggleWindow,
    StartAudio,
    Screenshot,
    ToggleSystemAudio,
}

/// The number of actions, and so of bindings.
pub const ACTION_COUNT: usize = 4;

/// The actions in the order in which they are bound, listed and checked.
pub open spec fn action_at(index: int) -> Action {
    if index <= 0 {
        Action::ToggleWindow
    } else if index == 1 {
        Action::StartAudio
    } else if index == 2 {
        Action::Screenshot
    } else {
        Action::ToggleSystemAudio
    }
}

/// The modifier key that is idiomatic on the OS family.
pub open spec fn primary_modifier(os: OsFamily) -> Seq<char> {
    match os {
        OsFamily::MacOs => "cmd"@,
        OsFamily::Windows => "ctrl"@,
        OsFamily::Linux => "ctrl"@,
    }
}

/// The keys that follow the primary modifier in the combination of `action`.
pub open spec fn chord_keys(action: Action) -> Seq<char> {
    match action {
        Action::ToggleWindow => "backslash"@,
        Action::StartAudio => "shift+a"@,
        Action::Screenshot => "shift+s"@,
        Action::ToggleSystemAudio => "shift+m"@,
    }
}

/// The combination bound to `action` on `os`: the primary modifier, a plus
/// sign, and the keys of the action.
pub open spec fn default_combination(os: OsFamily, action: Action) -> Seq<char> {
    primary_modifier(os) + "+"@ + chord_keys(action)
}

/// The name under which the binding of `action` is listed.
pub open spec fn listing_name(action: Action) -> Seq<char> {
    match action {
        Action::ToggleWindow => "toggle"@,
        Action::StartAudio => "audio"@,
        Action::Screenshot => "screenshot"@,
        Action::ToggleSystemAudio => "systemAudio"@,
    }
}

impl Action {
    /// The position of the action in the binding order.
    pub open spec fn index_of(self) -> int {
        match self {
            Action::ToggleWindow => 0,
            Action::StartAudio => 1,
            Action::Screenshot => 2,
            Action::ToggleSystemAudio => 3,
        }
    }

    /// The action at a position of the binding order.
    pub fn from_index(index: usize) -> (action: Action)
        ensures
            action == action_at(index as int),
    {
        if index == 0 {
            Action::ToggleWindow
        } else if index == 1 {
            Action::StartAudio
        } else if index == 2 {
            Action::Screenshot
        } else {
            Action::ToggleSystemAudio
        }
    }

    /// The position of the action in the binding order.
    pub fn index(self) -> (index: usize)
        ensures
            index == self.index_of(),
            index < ACTION_COUNT,
            action_at(index as int) == self,
    {
        match self {
            Action::ToggleWindow => 0,
            Action::StartAudio => 1,
            Action::Screenshot => 2,
            Action::ToggleSystemAudio => 3,
        }
    }

    /// The name under which the binding of the action is listed.
    pub fn name(self) -> (name: &'static str)
        ensures
            name@ == listing_name(self),
    {
        match self {
            Action::ToggleWindow => "toggle",
            Action::StartAudio => "audio",
            Action::Screenshot => "screenshot",
            Action::ToggleSystemAudio => "systemAudio",
        }
    }
}

/// The combination string bound to `action` on `os`.
pub fn default_shortcut(os: OsFamily, action: Action) -> (text: &'static str)
    ensures
        text@ == default_combination(os, action),
{
    proof {
        reveal_strlit("cmd");
        reveal_strlit("ctrl");
        reveal_strlit("+");
        reveal_strlit("backslash");
        reveal_strlit("shift+a");
        reveal_strlit("shift+s");
        reveal_strlit("shift+m");
        reveal_strlit("cmd+backslash");
        reveal_strlit("cmd+shift+a");
        reveal_strlit("cmd+shift+s");
        reveal_strlit("cmd+shift+m");
        reveal_strlit("ctrl+backslash");
        reveal_strlit("ctrl+shift+a");
        reveal_strlit("ctrl+shift+s");
        reveal_strlit("ctrl+shift+m");
    }
    match os {
        OsFamily::MacOs => match action {
            Action::ToggleWindow => "cmd+backslash",
            Action::StartAudio => "cmd+shift+a",
            Action::Screenshot => "cmd+shift+s",
            Action::ToggleSystemAudio => "cmd+shift+m",
        },
        OsFamily::Windows | OsFamily::Linux => match action {
            Action::ToggleWindow => "ctrl+backslash",
            Action::StartAudio => "ctrl+shift+a",
            Action::Screenshot => "ctrl+shift+s",
            Action::ToggleSystemAudio => "ctrl+shift+m",
        },
    }
}

/// One line of the listing of configured bindings.
#[derive(Clone, Copy, Debug, PartialEq, Eq)]
pub struct ShortcutEntry {
    pub action: Action,
    pub name: &'static str,
    pub combination: &'static str,
}

/// The configured bindings: one entry for each action, in binding order, with
/// the name it is listed under and its combination on `os`.
pub fn get_shortcuts(os: OsFamily) -> (entries: Vec<ShortcutEntry>)
    ensures
        entries@.len() == ACTION_COUNT,
        forall|i: int|
            0 <= i < ACTION_COUNT ==> {
                &&& (#[trigger] entries@[i]).action == action_at(i)
                &&& entries@[i].name@ == listing_name(action_at(i))
                &&& entries@[i].combination@ == default_combination(os, action_at(i))
            },
{
    let mut entries: Vec<ShortcutEntry> = Vec::new();
    let mut index: usize = 0;
    while index < ACTION_COUNT
        invariant
            index <= ACTION_COUNT,
            entries@.len() == index,
            forall|i: int|
                0 <= i < index ==> {
                    &&& (#[trigger] entries@[i]).action == action_at(i)
                    &&& entries@[i].name@ == listing_name(action_at(i))
                    &&& entries@[i].combination@ == default_combination(os, action_at(i))
                },
        decreases ACTION_COUNT - index,
    {
        let action = Action::from_index(index);
        entries.push(
            ShortcutEntry { action, name: action.name(), combination: default_shortcut(os, action) },
        );
        index = index + 1;
    }
    entries
}

/// The bindings of one action differ between OS families in the modifier
/// only: what follows the modifier is the same everywhere.
pub proof fn law_bindings_differ_in_modifier_only(first: OsFamily, second: OsFamily, action: Action)
    ensures
        default_combination(first, action).subrange(
            primary_modifier(first).len() as int,
            default_combination(first, action).len() as int,
        ) == default_combination(second, action).subrange(
            primary_modifier(second).len() as int,
            default_combination(second, action).len() as int,
        ),
{
    let tail = "+"@ + chord_keys(action);
    assert((primary_modifier(first) + tail).subrange(
        primary_modifier(first).len() as int,
        (primary_modifier(first) + tail).len() as int,
    ) =~= tail);
    assert((primary_modifier(second) + tail).subrange(
        primary_modifier(second).len() as int,
        (primary_modifier(second) + tail).len() as int,
    ) =~= tail);
}

/// On one OS family no two actions share a combination.
pub proof fn law_combinations_are_distinct(os: OsFamily, first: Action, second: Action)
    requires
        first != second,
    ensures
        default_combination(os, first) != default_combination(os, second),
{
    reveal_strlit("cmd");
    reveal_strlit("ctrl");
    reveal_strlit("+");
    reveal_strlit("backslash");
    reveal_strlit("shift+a");
    reveal_strlit("shift+s");
    reveal_strlit("shift+m");
    let one = default_combination(os, first);
    let other = default_combination(os, second);
    assert(one.len() != other.len() || one.last() != other.last());
}

} // verus!
