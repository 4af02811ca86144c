//! The errors that reach the caller of a command.

use crate::bindings::{default_combination, default_shortcut, Action, OsFamily};
use vstd::prelude::*;
use vstd::string::*;

verus! {

/// The host call behind a failure that the caller is told of.
#[derive(Clone, Copy, Debug, PartialEq, Eq, Structural)]
pub enum HostFailure {
    /// The hotkey service refused the combination of this action.
    Registration(Action),
    ActivationPolicy,
    TaskbarVisibility,
    PanelVisibility,
    AlwaysOnTop,
}

/// An error of a command.
#[derive(Clone, Debug, PartialEq, Eq)]
pub enum ShortcutError {
    /// The combination of `action` on `os` is malformed.
    Parse { os: OsFamily, action: Action },
    /// The target window does not exist.
    MissingWindow,
    /// The host refused a call; `detail` is what it said.
    Host { failure: HostFailure, detail: String },
}

/// How an action is called in a message.
pub open spec fn action_label(action: Action) -> Seq<char> {
    match action {
        Action::ToggleWindow => "toggle"@,
        Action::StartAudio => "audio"@,
        Action::Screenshot => "screenshot"@,
        Action::ToggleSystemAudio => "system audio"@,
    }
}

/// What a message says of a failed host call, before the host's own words.
pub open spec fn failure_text(failure: HostFailure) -> Seq<char> {
    match failure {
        HostFailure::Registration(action) => "Failed to register "@ + action_label(action)
            + " shortcut"@,
        HostFailure::ActivationPolicy => "Failed to set activation policy"@,
        HostFailure::TaskbarVisibility => "Failed to set taskbar visibility"@,
        HostFailure::PanelVisibility => "Failed to set panel visibility"@,
        HostFailure::AlwaysOnTop => "Failed to set always on top"@,
    }
}

/// The message of an error.
pub open spec fn message_text(error: ShortcutError) -> Seq<char> {
    match error {
        ShortcutError::Parse { os, action } => "Failed to parse shortcut: "@ + default_combination(
            os,
            action,
        ),
        ShortcutError::MissingWindow => "Main window not found"@,
        ShortcutError::Host { failure, detail } => failure_text(failure) + ": "@ + detail@,
    }
}

fn label_of(action: Action) -> (label: &'static str)
    ensures
        label@ == action_label(action),
{
    match action {
        Action::ToggleWindow => "toggle",
        Action::StartAudio => "audio",
        Action::Screenshot => "screenshot",
        Action::ToggleSystemAudio => "system audio",
    }
}

impl HostFailure {
    /// What a message says of the failed call, before the host's own words.
    pub fn text(self) -> (text: String)
        ensures
            text@ == failure_text(self),
    {
        match self {
            HostFailure::Registration(action) => {
                let mut text = "Failed to register ".to_owned();
                text.append(label_of(action));
                text.append(" shortcut");
                text
            },
            HostFailure::ActivationPolicy => "Failed to set activation policy".to_owned(),
            HostFailure::TaskbarVisibility => "Failed to set taskbar visibility".to_owned(),
            HostFailure::PanelVisibility => "Failed to set panel visibility".to_owned(),
            HostFailure::AlwaysOnTop => "Failed to set always on top".to_owned(),
        }
    }
}

impl ShortcutError {
    /// The message that the caller reports.
    pub fn message(&self) -> (text: String)
        ensures
            text@ == message_text(*self),
    {
        match self {
            ShortcutError::Parse { os, action } => {
                let mut text = "Failed to parse shortcut: ".to_owned();
                text.append(default_shortcut(*os, *action));
                text
            },
            ShortcutError::MissingWindow => "Main window not found".to_owned(),
            ShortcutError::Host { failure, detail } => {
                let mut text = failure.text();
                text.append(": ");
                text.append(detail.as_str());
                text
            },
        }
    }
}

} // verus!
