//! What the library asks of the window host, and what it is told about the
//! window.

use crate::bindings::Action;
use vstd::prelude::*;

verus! {

/// What the host reports of the window's visibility.
#[derive(Clone, Copy, Debug, PartialEq, Eq, Structural)]
pub enum Visibility {
    Visible,
    Hidden,
    /// The host was not asked, or the question failed.
    Unknown,
}

/// What the caller found when it looked for the target window.
#[derive(Clone, Copy, Debug, PartialEq, Eq, Structural)]
pub enum WindowStatus {
    /// The window was not created yet, or is gone.
    Missing,
    Present(Visibility),
}

/// The transition of a key that the hotkey service reports.
#[derive(Clone, Copy, Debug, PartialEq, Eq, Structural)]
pub enum KeyState {
    Pressed,
    Released,
}

/// How the application presents itself to the shell of the OS.
#[derive(Clone, Copy, Debug, PartialEq, Eq, Structural)]
pub enum ActivationPolicy {
    /// An ordinary application with an icon.
    Regular,
    /// A background application without one.
    Accessory,
}

/// A notification for the listeners of the application.
#[derive(Clone, Copy, Debug, PartialEq, Eq, Structural)]
pub enum Notification {
    /// The tracked flag was flipped; carries the new hidden state.
    ToggleWindowVisibility(bool),
    /// The primary text input should take the focus.
    FocusTextInput,
    /// Audio capture should begin.
    StartAudioRecording,
    /// A screenshot should be taken.
    TriggerScreenshot,
    /// System-audio capture should be switched.
    ToggleSystemAudio,
}

/// The event name under which a notification is delivered.
pub open spec fn event_name_text(notification: Notification) -> Seq<char> {
    match notification {
        Notification::ToggleWindowVisibility(_) => "toggle-window-visibility"@,
        Notification::FocusTextInput => "focus-text-input"@,
        Notification::StartAudioRecording => "start-audio-recording"@,
        Notification::TriggerScreenshot => "trigger-screenshot"@,
        Notification::ToggleSystemAudio => "toggle-system-audio"@,
    }
}

impl Notification {
    /// The event name under which the notification is delivered.
    pub fn event_name(self) -> (name: &'static str)
        ensures
            name@ == event_name_text(self),
    {
        match self {
            Notification::ToggleWindowVisibility(_) => "toggle-window-visibility",
            Notification::FocusTextInput => "focus-text-input",
            Notification::StartAudioRecording => "start-audio-recording",
            Notification::TriggerScreenshot => "trigger-screenshot",
            Notification::ToggleSystemAudio => "toggle-system-audio",
        }
    }

    /// The boolean that the notification carries; `None` stands for the empty
    /// payload.
    pub fn payload(self) -> (payload: Option<bool>)
        ensures
            payload == (match self {
                Notification::ToggleWindowVisibility(hidden) => Some(hidden),
                _ => None::<bool>,
            }),
    {
        match self {
            Notification::ToggleWindowVisibility(hidden) => Some(hidden),
            _ => None,
        }
    }
}

/// `HotKey` of the hotkey service: a parsed key combination. The library
/// carries such values from the parser to the host and never looks inside.
#[verifier::external_type_specification]
#[verifier::external_body]
pub struct ExHotKey(global_hotkey::hotkey::HotKey);

/// A validated hotkey descriptor: an action and its parsed combination.
#[derive(Clone, Copy, Debug, PartialEq, Eq)]
pub struct Binding {
    pub action: Action,
    pub shortcut: global_hotkey::hotkey::HotKey,
}

/// One operation of the window host or of the hotkey service.
#[derive(Clone, Copy, Debug, PartialEq, Eq)]
pub enum HostOp {
    /// Unmap the window.
    Hide,
    /// Map the window.
    Show,
    /// Give the window the input focus.
    SetFocus,
    /// Deliver a notification to the listeners.
    Emit(Notification),
    /// Keep the window out of the taskbar or panel, or put it back.
    SetSkipTaskbar(bool),
    /// Keep the window above the others, or stop doing so.
    SetAlwaysOnTop(bool),
    /// Switch the application between foreground and background presence.
    SetActivationPolicy(ActivationPolicy),
    /// Attach the handler of the binding's action to its combination.
    AttachHandler(Binding),
    /// Register the combination with the hotkey service.
    Register(Binding),
    /// Ask the hotkey service whether the combination is registered; a
    /// combination that is not counts as a failed operation.
    IsRegistered(Binding),
}

/// The label of the one window that the hotkeys act on.
pub fn main_window_label() -> (label: &'static str)
    ensures
        label@ == "main"@,
{
    "main"
}

} // verus!
