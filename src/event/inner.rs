//! The kinds of change that events report, and the details of a binding.
use crate::strings::str_eq;
use vstd::prelude::*;

verus! {

/// The kind of workspace change.
#[derive(Debug, Clone, Copy, PartialEq, Eq, Structural)]
pub enum WorkspaceChange {
    Focus,
    Init,
    Empty,
    Urgent,
    Rename,
    Reload,
    Restored,
    Move,
    /// A change this library does not know yet.
    Unknown,
}

/// The kind of output change.
#[derive(Debug, Clone, Copy, PartialEq, Eq, Structural)]
pub enum OutputChange {
    Unspecified,
    /// A change this library does not know yet.
    Unknown,
}

/// The kind of window change.
#[derive(Debug, Clone, Copy, PartialEq, Eq, Structural)]
pub enum WindowChange {
    /// The window has become managed by i3.
    New,
    /// The window has closed.
    Close,
    /// The window has received input focus.
    Focus,
    /// The window's title has changed.
    Title,
    /// The window has entered or exited fullscreen mode.
    FullscreenMode,
    /// The window has changed its position in the tree.
    Move,
    /// The window has transitioned to or from floating.
    Floating,
    /// The window has become urgent or lost its urgent status.
    Urgent,
    /// A mark has been added to or removed from the window.
    Mark,
    /// A change this library does not know yet.
    Unknown,
}

/// Either keyboard or mouse.
#[derive(Debug, Clone, Copy, PartialEq, Eq, Structural)]
pub enum InputType {
    Keyboard,
    Mouse,
    /// An input type this library does not know yet.
    Unknown,
}

/// The details of the binding that was run.
#[derive(Debug, Clone)]
pub struct Binding {
    /// The i3 command that is configured to run for this binding.
    pub command: String,
    /// The group and modifier keys that were configured with this binding.
    pub event_state_mask: Vec<String>,
    /// The key code or mouse button count the binding was configured with; 0
    /// otherwise.
    pub input_code: i32,
    /// The symbol of a keyboard binding configured with bindsym.
    pub symbol: Option<String>,
    /// Whether this was a keyboard or a mouse binding.
    pub input_type: InputType,
}

/// The kind of binding change.
#[derive(Debug, Clone, Copy, PartialEq, Eq, Structural)]
pub enum BindingChange {
    Run,
    /// A change this library does not know yet.
    Unknown,
}

/// The kind of shutdown.
#[derive(Debug, Clone, Copy, PartialEq, Eq, Structural)]
pub enum ShutdownChange {
    Restart,
    Exit,
    /// A change this library does not know yet.
    Unknown,
}

pub open spec fn workspace_change_of(s: Seq<char>) -> WorkspaceChange {
    if s == "focus"@ {
        WorkspaceChange::Focus
    } else if s == "init"@ {
        WorkspaceChange::Init
    } else if s == "empty"@ {
        WorkspaceChange::Empty
    } else if s == "urgent"@ {
        WorkspaceChange::Urgent
    } else if s == "rename"@ {
        WorkspaceChange::Rename
    } else if s == "reload"@ {
        WorkspaceChange::Reload
    } else if s == "move"@ {
        WorkspaceChange::Move
    } else if s == "restored"@ {
        WorkspaceChange::Restored
    } else {
        WorkspaceChange::Unknown
    }
}

pub open spec fn output_change_of(s: Seq<char>) -> OutputChange {
    if s == "unspecified"@ {
        OutputChange::Unspecified
    } else {
        OutputChange::Unknown
    }
}

pub open spec fn window_change_of(s: Seq<char>) -> WindowChange {
    if s == "new"@ {
        WindowChange::New
    } else if s == "close"@ {
        WindowChange::Close
    } else if s == "focus"@ {
        WindowChange::Focus
    } else if s == "title"@ {
        WindowChange::Title
    } else if s == "fullscreen_mode"@ {
        WindowChange::FullscreenMode
    } else if s == "move"@ {
        WindowChange::Move
    } else if s == "floating"@ {
        WindowChange::Floating
    } else if s == "urgent"@ {
        WindowChange::Urgent
    } else if s == "mark"@ {
        WindowChange::Mark
    } else {
        WindowChange::Unknown
    }
}

pub open spec fn input_type_of(s: Seq<char>) -> InputType {
    if s == "keyboard"@ {
        InputType::Keyboard
    } else if s == "mouse"@ {
        InputType::Mouse
    } else {
        InputType::Unknown
    }
}

pub open spec fn binding_change_of(s: Seq<char>) -> BindingChange {
    if s == "run"@ {
        BindingChange::Run
    } else {
        BindingChange::Unknown
    }
}

pub open spec fn shutdown_change_of(s: Seq<char>) -> ShutdownChange {
    if s == "restart"@ {
        ShutdownChange::Restart
    } else if s == "exit"@ {
        ShutdownChange::Exit
    } else {
        ShutdownChange::Unknown
    }
}

pub(crate) fn workspace_change_from(s: &str) -> (r: WorkspaceChange)
    ensures
        r == workspace_change_of(s@),
{
    if str_eq(s, "focus") {
        WorkspaceChange::Focus
    } else if str_eq(s, "init") {
        WorkspaceChange::Init
    } else if str_eq(s, "empty") {
        WorkspaceChange::Empty
    } else if str_eq(s, "urgent") {
        WorkspaceChange::Urgent
    } else if str_eq(s, "rename") {
        WorkspaceChange::Rename
    } else if str_eq(s, "reload") {
        WorkspaceChange::Reload
    } else if str_eq(s, "move") {
        WorkspaceChange::Move
    } else if str_eq(s, "restored") {
        WorkspaceChange::Restored
    } else {
        WorkspaceChange::Unknown
    }
}

pub(crate) fn output_change_from(s: &str) -> (r: OutputChange)
    ensures
        r == output_change_of(s@),
{
    if str_eq(s, "unspecified") {
        OutputChange::Unspecified
    } else {
        OutputChange::Unknown
    }
}

pub(crate) fn window_change_from(s: &str) -> (r: WindowChange)
    ensures
        r == window_change_of(s@),
{
    if str_eq(s, "new") {
        WindowChange::New
    } else if str_eq(s, "close") {
        WindowChange::Close
    } else if str_eq(s, "focus") {
        WindowChange::Focus
    } else if str_eq(s, "title") {
        WindowChange::Title
    } else if str_eq(s, "fullscreen_mode") {
        WindowChange::FullscreenMode
    } else if str_eq(s, "move") {
        WindowChange::Move
    } else if str_eq(s, "floating") {
        WindowChange::Floating
    } else if str_eq(s, "urgent") {
        WindowChange::Urgent
    } else if str_eq(s, "mark") {
        WindowChange::Mark
    } else {
        WindowChange::Unknown
    }
}

pub(crate) fn input_type_from(s: &str) -> (r: InputType)
    ensures
        r == input_type_of(s@),
{
    if str_eq(s, "keyboard") {
        InputType::Keyboard
    } else if str_eq(s, "mouse") {
        InputType::Mouse
    } else {
        InputType::Unknown
    }
}

pub(crate) fn binding_change_from(s: &str) -> (r: BindingChange)
    ensures
        r == binding_change_of(s@),
{
    if str_eq(s, "run") {
        BindingChange::Run
    } else {
        BindingChange::Unknown
    }
}

pub(crate) fn shutdown_change_from(s: &str) -> (r: ShutdownChange)
    ensures
        r == shutdown_change_of(s@),
{
    if str_eq(s, "restart") {
        ShutdownChange::Restart
    } else if str_eq(s, "exit") {
        ShutdownChange::Exit
    } else {
        ShutdownChange::Unknown
    }
}

} // verus!
