//! The replies that i3 sends to requests, as typed values.
use crate::common::{
    bar_config_ok, build_bar_config, build_strings, build_tree, field_rect, field_rect_of,
    is_bar_config_of, is_tree_of, opt_view, strings_of, texts_view, tree_ok,
};
use crate::json::{
    field_bool, field_bool_of, field_i64, field_i64_of, field_str, field_str_of, get, json_tree,
    member, parse_value, str_of, Json, decodes,
};
use crate::MessageError;
use vstd::prelude::*;

verus! {

/// The outcome of a single command.
#[derive(Debug, Clone)]
pub struct CommandOutcome {
    /// Whether the command was successful.
    pub success: bool,
    /// A human-readable error message.
    pub error: Option<String>,
}

/// The reply to the `run_command` request.
#[derive(Debug, Clone)]
pub struct Command {
    /// One outcome for each command that was parsed, in order.
    pub outcomes: Vec<CommandOutcome>,
}

/// A single workspace.
#[derive(Debug)]
pub struct Workspace {
    /// The logical number of the workspace; -1 for named workspaces.
    pub num: i32,
    /// The name of this workspace.
    pub name: String,
    /// Whether this workspace is currently visible on an output.
    pub visible: bool,
    /// Whether this workspace currently has the focus.
    pub focused: bool,
    /// Whether a window on this workspace has the "urgent" flag set.
    pub urgent: bool,
    /// The rectangle of this workspace: x, y, width, height.
    pub rect: (i32, i32, i32, i32),
    /// The video output this workspace is on (LVDS1, VGA1, …).
    pub output: String,
}

/// The reply to the `get_workspaces` request.
#[derive(Debug)]
pub struct Workspaces {
    pub workspaces: Vec<Workspace>,
}

/// The reply to the `subscribe` request.
#[derive(Debug, Clone, Copy, PartialEq, Eq, Structural)]
pub struct Subscribe {
    /// Whether the subscription was successful.
    pub success: bool,
}

/// A video mode of an output.
#[derive(Debug, Clone, Copy, PartialEq, Eq, Structural)]
pub struct Mode {
    pub width: i32,
    pub height: i32,
    pub refresh: i32,
}

/// A single output (display).
#[derive(Debug)]
pub struct Output {
    /// The name of this output (as seen in xrandr).
    pub name: String,
    /// Whether the output is currently active (has a valid mode).
    pub active: bool,
    /// Whether the output is currently the primary output.
    pub primary: bool,
    /// The name of the workspace that is visible on this output; `None` if
    /// the output is not active.
    pub current_workspace: Option<String>,
    /// The rectangle of this output: x, y, width, height.
    pub rect: (i32, i32, i32, i32),
}

/// The reply to the `get_outputs` request.
#[derive(Debug)]
pub struct Outputs {
    pub outputs: Vec<Output>,
}

/// An X11 window property that i3 reports.
#[derive(Debug, Clone, Copy, PartialEq, Eq, Structural, Hash)]
pub enum WindowProperty {
    Title,
    Instance,
    Class,
    WindowRole,
    TransientFor,
    Machine,
}

#[derive(Debug, Clone, Copy, PartialEq, Eq, Structural, Hash)]
pub enum NodeType {
    Root,
    Output,
    Con,
    FloatingCon,
    Workspace,
    DockArea,
    /// A node type this library does not know yet.
    Unknown,
}

#[derive(Debug, Clone, Copy, PartialEq, Eq, Structural, Hash)]
pub enum NodeBorder {
    Normal,
    /// No border (i3's `none`).
    NoBorder,
    Pixel,
    /// A border style this library does not know yet.
    Unknown,
}

#[derive(Debug, Clone, Copy, PartialEq, Eq, Structural, Hash)]
pub enum NodeLayout {
    SplitH,
    SplitV,
    Stacked,
    Tabbed,
    DockArea,
    Output,
    /// A layout this library does not know yet.
    Unknown,
}

/// A container of i3's layout tree; the reply to the `get_tree` request.
#[derive(Debug)]
pub struct Node {
    /// The ids of the child nodes in focus order. Following the first entry
    /// from the root leads to the focused node.
    pub focus: Vec<i64>,
    /// The child nodes of this container.
    pub nodes: Vec<Node>,
    /// The floating child nodes of this container.
    pub floating_nodes: Vec<Node>,
    /// i3's id of this container.
    pub id: i64,
    /// The name of this container; the title for a container of a window.
    pub name: Option<String>,
    /// The type of this container.
    pub nodetype: NodeType,
    /// The border style of this container.
    pub border: NodeBorder,
    /// The border width in pixels.
    pub current_border_width: i32,
    /// The layout of this container.
    pub layout: NodeLayout,
    /// The share of its parent that this container takes, where that makes
    /// sense; the number as i3 sent it.
    pub percent: Option<serde_json::Number>,
    /// The absolute display coordinates: x, y, width, height.
    pub rect: (i32, i32, i32, i32),
    /// The client window's coordinates inside this container.
    pub window_rect: (i32, i32, i32, i32),
    /// The window decoration's coordinates inside this container.
    pub deco_rect: (i32, i32, i32, i32),
    /// The geometry the window asked for when i3 mapped it.
    pub geometry: (i32, i32, i32, i32),
    /// The X11 id of the client window, if there is one.
    pub window: Option<i32>,
    /// The X11 window properties i3 reports, in the order of the reply.
    pub window_properties: Option<Vec<(WindowProperty, String)>>,
    /// Whether this container, or a child of it, is urgent.
    pub urgent: bool,
    /// Whether this container is currently focused.
    pub focused: bool,
}

/// The reply to the `get_marks` request: the marks that are set.
#[derive(Debug, Clone)]
pub struct Marks {
    pub marks: Vec<String>,
}

/// The reply to the `get_bar_ids` request.
#[derive(Debug, Clone)]
pub struct BarIds {
    /// The configured bar ids.
    pub ids: Vec<String>,
}

/// A part of the bar whose color can be configured.
#[derive(Debug, Clone, Copy, PartialEq, Eq, Structural, Hash)]
pub enum ColorableBarPart {
    Background,
    Statusline,
    Separator,
    FocusedBackground,
    FocusedStatusline,
    FocusedSeparator,
    FocusedWorkspaceText,
    FocusedWorkspaceBg,
    FocusedWorkspaceBorder,
    ActiveWorkspaceText,
    ActiveWorkspaceBg,
    ActiveWorkspaceBorder,
    InactiveWorkspaceText,
    InactiveWorkspaceBg,
    InactiveWorkspaceBorder,
    UrgentWorkspaceText,
    UrgentWorkspaceBg,
    UrgentWorkspaceBorder,
    BindingModeText,
    BindingModeBg,
    BindingModeBorder,
    /// A part this library does not know yet; its color is kept.
    Unknown,
}

/// The reply to the `get_bar_config` request.
#[derive(Debug, Clone)]
pub struct BarConfig {
    pub id: String,
    /// dock or hide.
    pub mode: String,
    /// bottom or top.
    pub position: String,
    /// The command that generates the statusline.
    pub status_command: String,
    pub font: String,
    pub workspace_buttons: bool,
    pub binding_mode_indicator: bool,
    pub verbose: bool,
    /// The colors (#rrggbb) in the order of the reply. Every name this library
    /// does not know appears under `Unknown`.
    pub colors: Vec<(ColorableBarPart, String)>,
}

/// The reply to the `get_version` request.
#[derive(Debug, Clone)]
pub struct Version {
    pub major: i32,
    pub minor: i32,
    pub patch: i32,
    /// The version as `i3 --version` shows it.
    pub human_readable: String,
    /// The current config path.
    pub loaded_config_file_name: String,
}

/// The reply to the `get_binding_modes` request.
#[derive(Debug, Clone)]
pub struct BindingModes {
    pub modes: Vec<String>,
}

/// The reply to the `get_config` request.
#[derive(Debug, Clone)]
pub struct Config {
    /// The config file as i3 loaded it most recently.
    pub config: String,
}

pub open spec fn outcome_ok(j: Json) -> bool {
    &&& field_bool_of(j, "success"@) is Some
    &&& get(j, "error"@) matches Some(e) ==> str_of(e) is Some
}

pub open spec fn is_outcome_of(j: Json, o: CommandOutcome) -> bool {
    &&& field_bool_of(j, "success"@) == Some(o.success)
    &&& opt_view(o.error) == match get(j, "error"@) {
        Some(e) => str_of(e),
        None => None,
    }
}

pub open spec fn command_ok(j: Json) -> bool {
    &&& j is Array
    &&& forall|i: int| 0 <= i < j->Array_0.len() ==> #[trigger] outcome_ok(j->Array_0[i])
}

pub open spec fn is_command_of(j: Json, c: Command) -> bool {
    match j {
        Json::Array(items) => c.outcomes@.len() == items.len() && forall|i: int|
        0 <= i < items.len() ==> is_outcome_of(#[trigger] items[i], c.outcomes@[i]),
        _ => false,
    }
}

fn build_outcome(j: &serde_json::Value) -> (r: Option<CommandOutcome>)
    ensures
        match r {
            Some(o) => outcome_ok(json_tree(*j)) && is_outcome_of(json_tree(*j), o),
            None => !outcome_ok(json_tree(*j)),
        },
{
    let success = match field_bool(j, "success") {
        Some(b) => b,
        None => return None,
    };
    let error = match member(j, "error") {
        Some(e) => match e.as_str() {
            Some(t) => Some(t.to_owned()),
            None => return None,
        },
        None => None,
    };
    Some(CommandOutcome { success, error })
}

impl Command {
    /// Reads the reply to `run_command`: one outcome per command, in order.
    pub fn from_value(j: &serde_json::Value) -> (r: Option<Self>)
        ensures
            match r {
                Some(c) => command_ok(json_tree(*j)) && is_command_of(json_tree(*j), c),
                None => !command_ok(json_tree(*j)),
            },
    {
        let items = match j.as_array() {
            Some(a) => a,
            None => return None,
        };
        let ghost js = json_tree(*j)->Array_0;
        let mut outcomes: Vec<CommandOutcome> = Vec::new();
        let mut i: usize = 0;
        while i < items.len()
            invariant
                json_tree(*j) == Json::Array(js),
                items@.len() == js.len(),
                forall|k: int| 0 <= k < js.len() ==> #[trigger] json_tree(items@[k]) == js[k],
                i <= items@.len(),
                outcomes@.len() == i,
                forall|k: int| 0 <= k < i ==> outcome_ok(#[trigger] js[k]) && is_outcome_of(js[k], outcomes@[k]),
            decreases items@.len() - i,
        {
            assert(json_tree(items@[i as int]) == js[i as int]);
            match build_outcome(&items[i]) {
                Some(o) => outcomes.push(o),
                None => {
                    assert(!outcome_ok(js[i as int]));
                    assert(!outcome_ok(json_tree(*j)->Array_0[i as int]));
                    return None;
                },
            }
            i = i + 1;
        }
        Some(Command { outcomes })
    }

    /// Reads the reply to `run_command` from its JSON text.
    pub fn from_str(s: &str) -> (r: Result<Self, MessageError>)
        ensures
            decodes(s@, r, |j: Json| command_ok(j), |j: Json, c: Self| is_command_of(j, c)),
    {
        match parse_value(s) {
            Ok(v) => match Self::from_value(&v) {
                Some(c) => Ok(c),
                None => Err(MessageError::Schema),
            },
            Err(e) => Err(MessageError::JsonCouldntParse(e)),
        }
    }
}

pub open spec fn workspace_ok(j: Json) -> bool {
    &&& field_i64_of(j, "num"@) is Some
    &&& field_str_of(j, "name"@) is Some
    &&& field_bool_of(j, "visible"@) is Some
    &&& field_bool_of(j, "focused"@) is Some
    &&& field_bool_of(j, "urgent"@) is Some
    &&& field_rect_of(j, "rect"@) is Some
    &&& field_str_of(j, "output"@) is Some
}

pub open spec fn is_workspace_of(j: Json, w: Workspace) -> bool {
    &&& w.num == field_i64_of(j, "num"@)->0 as i32
    &&& field_str_of(j, "name"@) == Some(w.name@)
    &&& field_bool_of(j, "visible"@) == Some(w.visible)
    &&& field_bool_of(j, "focused"@) == Some(w.focused)
    &&& field_bool_of(j, "urgent"@) == Some(w.urgent)
    &&& field_rect_of(j, "rect"@) == Some(w.rect)
    &&& field_str_of(j, "output"@) == Some(w.output@)
}

pub open spec fn workspaces_ok(j: Json) -> bool {
    &&& j is Array
    &&& forall|i: int| 0 <= i < j->Array_0.len() ==> #[trigger] workspace_ok(j->Array_0[i])
}

pub open spec fn is_workspaces_of(j: Json, w: Workspaces) -> bool {
    match j {
        Json::Array(items) => w.workspaces@.len() == items.len() && forall|i: int|
        0 <= i < items.len() ==> is_workspace_of(#[trigger] items[i], w.workspaces@[i]),
        _ => false,
    }
}

impl Workspace {
    /// Reads one workspace.
    pub fn from_value(w: &serde_json::Value) -> (r: Option<Self>)
        ensures
            match r {
                Some(x) => workspace_ok(json_tree(*w)) && is_workspace_of(json_tree(*w), x),
                None => !workspace_ok(json_tree(*w)),
            },
    {
        let num = match field_i64(w, "num") {
            Some(n) => n as i32,
            None => return None,
        };
        let name = match field_str(w, "name") {
            Some(v) => v,
            None => return None,
        };
        let visible = match field_bool(w, "visible") {
            Some(v) => v,
            None => return None,
        };
        let focused = match field_bool(w, "focused") {
            Some(v) => v,
            None => return None,
        };
        let urgent = match field_bool(w, "urgent") {
            Some(v) => v,
            None => return None,
        };
        let rect = match field_rect(w, "rect") {
            Some(v) => v,
            None => return None,
        };
        let output = match field_str(w, "output") {
            Some(v) => v,
            None => return None,
        };
        Some(Workspace { num, name, visible, focused, urgent, rect, output })
    }
}

impl Workspaces {
    /// Reads the reply to `get_workspaces`.
    pub fn from_value(j: &serde_json::Value) -> (r: Option<Self>)
        ensures
            match r {
                Some(w) => workspaces_ok(json_tree(*j)) && is_workspaces_of(json_tree(*j), w),
                None => !workspaces_ok(json_tree(*j)),
            },
    {
        let items = match j.as_array() {
            Some(a) => a,
            None => return None,
        };
        let ghost js = json_tree(*j)->Array_0;
        let mut workspaces: Vec<Workspace> = Vec::new();
        let mut i: usize = 0;
        while i < items.len()
            invariant
                json_tree(*j) == Json::Array(js),
                items@.len() == js.len(),
                forall|k: int| 0 <= k < js.len() ==> #[trigger] json_tree(items@[k]) == js[k],
                i <= items@.len(),
                workspaces@.len() == i,
                forall|k: int| 0 <= k < i ==> workspace_ok(#[trigger] js[k]) && is_workspace_of(js[k], workspaces@[k]),
            decreases items@.len() - i,
        {
            assert(json_tree(items@[i as int]) == js[i as int]);
            match Workspace::from_value(&items[i]) {
                Some(w) => workspaces.push(w),
                None => {
                    assert(!workspace_ok(json_tree(*j)->Array_0[i as int]));
                    return None;
                },
            }
            i = i + 1;
        }
        Some(Workspaces { workspaces })
    }

    /// Reads the reply to `get_workspaces` from its JSON text.
    pub fn from_str(s: &str) -> (r: Result<Self, MessageError>)
        ensures
            decodes(s@, r, |j: Json| workspaces_ok(j), |j: Json, w: Self| is_workspaces_of(j, w)),
    {
        match parse_value(s) {
            Ok(v) => match Self::from_value(&v) {
                Some(w) => Ok(w),
                None => Err(MessageError::Schema),
            },
            Err(e) => Err(MessageError::JsonCouldntParse(e)),
        }
    }
}

/// The current workspace of an output: a string, or absent or null; `None`
/// where it is anything else.
pub open spec fn current_workspace_of(j: Json) -> Option<Option<Seq<char>>> {
    match get(j, "current_workspace"@) {
        Some(Json::Str(s)) => Some(Some(s)),
        Some(Json::Null) | None => Some(None),
        _ => None,
    }
}

pub open spec fn output_ok(j: Json) -> bool {
    &&& field_str_of(j, "name"@) is Some
    &&& field_bool_of(j, "active"@) is Some
    &&& field_bool_of(j, "primary"@) is Some
    &&& current_workspace_of(j) is Some
    &&& field_rect_of(j, "rect"@) is Some
}

pub open spec fn is_output_of(j: Json, o: Output) -> bool {
    &&& field_str_of(j, "name"@) == Some(o.name@)
    &&& field_bool_of(j, "active"@) == Some(o.active)
    &&& field_bool_of(j, "primary"@) == Some(o.primary)
    &&& current_workspace_of(j) == Some(opt_view(o.current_workspace))
    &&& field_rect_of(j, "rect"@) == Some(o.rect)
}

pub open spec fn outputs_ok(j: Json) -> bool {
    &&& j is Array
    &&& forall|i: int| 0 <= i < j->Array_0.len() ==> #[trigger] output_ok(j->Array_0[i])
}

pub open spec fn is_outputs_of(j: Json, o: Outputs) -> bool {
    match j {
        Json::Array(items) => o.outputs@.len() == items.len() && forall|i: int|
        0 <= i < items.len() ==> is_output_of(#[trigger] items[i], o.outputs@[i]),
        _ => false,
    }
}

impl Output {
    /// Reads one output.
    pub fn from_value(o: &serde_json::Value) -> (r: Option<Self>)
        ensures
            match r {
                Some(x) => output_ok(json_tree(*o)) && is_output_of(json_tree(*o), x),
                None => !output_ok(json_tree(*o)),
            },
    {
        let name = match field_str(o, "name") {
            Some(v) => v,
            None => return None,
        };
        let active = match field_bool(o, "active") {
            Some(v) => v,
            None => return None,
        };
        let primary = match field_bool(o, "primary") {
            Some(v) => v,
            None => return None,
        };
        let current_workspace = match member(o, "current_workspace") {
            Some(x) => match x.as_str() {
                Some(t) => Some(t.to_owned()),
                None => if x.is_null() {
                    None
                } else {
                    return None;
                },
            },
            None => None,
        };
        let rect = match field_rect(o, "rect") {
            Some(v) => v,
            None => return None,
        };
        Some(Output { name, active, primary, current_workspace, rect })
    }
}

impl Outputs {
    /// Reads the reply to `get_outputs`.
    pub fn from_value(j: &serde_json::Value) -> (r: Option<Self>)
        ensures
            match r {
                Some(o) => outputs_ok(json_tree(*j)) && is_outputs_of(json_tree(*j), o),
                None => !outputs_ok(json_tree(*j)),
            },
    {
        let items = match j.as_array() {
            Some(a) => a,
            None => return None,
        };
        let ghost js = json_tree(*j)->Array_0;
        let mut outputs: Vec<Output> = Vec::new();
        let mut i: usize = 0;
        while i < items.len()
            invariant
                json_tree(*j) == Json::Array(js),
                items@.len() == js.len(),
                forall|k: int| 0 <= k < js.len() ==> #[trigger] json_tree(items@[k]) == js[k],
                i <= items@.len(),
                outputs@.len() == i,
                forall|k: int| 0 <= k < i ==> output_ok(#[trigger] js[k]) && is_output_of(js[k], outputs@[k]),
            decreases items@.len() - i,
        {
            assert(json_tree(items@[i as int]) == js[i as int]);
            match Output::from_value(&items[i]) {
                Some(o) => outputs.push(o),
                None => {
                    assert(!output_ok(json_tree(*j)->Array_0[i as int]));
                    return None;
                },
            }
            i = i + 1;
        }
        Some(Outputs { outputs })
    }

    /// Reads the reply to `get_outputs` from its JSON text.
    pub fn from_str(s: &str) -> (r: Result<Self, MessageError>)
        ensures
            decodes(s@, r, |j: Json| outputs_ok(j), |j: Json, o: Self| is_outputs_of(j, o)),
    {
        match parse_value(s) {
            Ok(v) => match Self::from_value(&v) {
                Some(o) => Ok(o),
                None => Err(MessageError::Schema),
            },
            Err(e) => Err(MessageError::JsonCouldntParse(e)),
        }
    }
}

impl Node {
    /// Reads the reply to `get_tree` from its JSON text.
    pub fn from_str(s: &str) -> (r: Result<Self, MessageError>)
        ensures
            decodes(s@, r, |j: Json| tree_ok(j), |j: Json, n: Self| is_tree_of(j, n)),
    {
        match parse_value(s) {
            Ok(v) => match build_tree(&v) {
                Some(n) => Ok(n),
                None => Err(MessageError::Schema),
            },
            Err(e) => Err(MessageError::JsonCouldntParse(e)),
        }
    }
}

impl BarConfig {
    /// Reads the reply to `get_bar_config` from its JSON text.
    pub fn from_str(s: &str) -> (r: Result<Self, MessageError>)
        ensures
            decodes(s@, r, |j: Json| bar_config_ok(j), |j: Json, b: Self| is_bar_config_of(j, b)),
    {
        match parse_value(s) {
            Ok(v) => match build_bar_config(&v) {
                Some(b) => Ok(b),
                None => Err(MessageError::Schema),
            },
            Err(e) => Err(MessageError::JsonCouldntParse(e)),
        }
    }
}

/// Reads a reply that is an array of strings.
fn strings_from_str(s: &str) -> (r: Result<Vec<String>, MessageError>)
    ensures
        decodes(s@, r, |j: Json| strings_of(j) is Some, |j: Json, v: Vec<String>| strings_of(j) == Some(texts_view(v@))),
{
    match parse_value(s) {
        Ok(v) => match build_strings(&v) {
            Some(x) => Ok(x),
            None => Err(MessageError::Schema),
        },
        Err(e) => Err(MessageError::JsonCouldntParse(e)),
    }
}

impl Marks {
    /// Reads the reply to `get_marks` from its JSON text.
    pub fn from_str(s: &str) -> (r: Result<Self, MessageError>)
        ensures
            decodes(s@, r, |j: Json| strings_of(j) is Some, |j: Json, m: Self| strings_of(j) == Some(texts_view(m.marks@))),
    {
        match strings_from_str(s) {
            Ok(marks) => Ok(Marks { marks }),
            Err(e) => Err(e),
        }
    }
}

impl BarIds {
    /// Reads the reply to `get_bar_ids` from its JSON text.
    pub fn from_str(s: &str) -> (r: Result<Self, MessageError>)
        ensures
            decodes(s@, r, |j: Json| strings_of(j) is Some, |j: Json, b: Self| strings_of(j) == Some(texts_view(b.ids@))),
    {
        match strings_from_str(s) {
            Ok(ids) => Ok(BarIds { ids }),
            Err(e) => Err(e),
        }
    }
}

impl BindingModes {
    /// Reads the reply to `get_binding_modes` from its JSON text.
    pub fn from_str(s: &str) -> (r: Result<Self, MessageError>)
        ensures
            decodes(s@, r, |j: Json| strings_of(j) is Some, |j: Json, b: Self| strings_of(j) == Some(texts_view(b.modes@))),
    {
        match strings_from_str(s) {
            Ok(modes) => Ok(BindingModes { modes }),
            Err(e) => Err(e),
        }
    }
}

pub open spec fn version_ok(j: Json) -> bool {
    &&& field_i64_of(j, "major"@) is Some
    &&& field_i64_of(j, "minor"@) is Some
    &&& field_i64_of(j, "patch"@) is Some
    &&& field_str_of(j, "human_readable"@) is Some
    &&& field_str_of(j, "loaded_config_file_name"@) is Some
}

pub open spec fn is_version_of(j: Json, v: Version) -> bool {
    &&& v.major == field_i64_of(j, "major"@)->0 as i32
    &&& v.minor == field_i64_of(j, "minor"@)->0 as i32
    &&& v.patch == field_i64_of(j, "patch"@)->0 as i32
    &&& field_str_of(j, "human_readable"@) == Some(v.human_readable@)
    &&& field_str_of(j, "loaded_config_file_name"@) == Some(v.loaded_config_file_name@)
}

impl Version {
    /// Reads the reply to `get_version`.
    pub fn from_value(j: &serde_json::Value) -> (r: Option<Self>)
        ensures
            match r {
                Some(v) => version_ok(json_tree(*j)) && is_version_of(json_tree(*j), v),
                None => !version_ok(json_tree(*j)),
            },
    {
        let major = match field_i64(j, "major") {
            Some(n) => n as i32,
            None => return None,
        };
        let minor = match field_i64(j, "minor") {
            Some(n) => n as i32,
            None => return None,
        };
        let patch = match field_i64(j, "patch") {
            Some(n) => n as i32,
            None => return None,
        };
        let human_readable = match field_str(j, "human_readable") {
            Some(v) => v,
            None => return None,
        };
        let loaded_config_file_name = match field_str(j, "loaded_config_file_name") {
            Some(v) => v,
            None => return None,
        };
        Some(Version { major, minor, patch, human_readable, loaded_config_file_name })
    }

    /// Reads the reply to `get_version` from its JSON text.
    pub fn from_str(s: &str) -> (r: Result<Self, MessageError>)
        ensures
            decodes(s@, r, |j: Json| version_ok(j), |j: Json, v: Self| is_version_of(j, v)),
    {
        match parse_value(s) {
            Ok(v) => match Self::from_value(&v) {
                Some(x) => Ok(x),
                None => Err(MessageError::Schema),
            },
            Err(e) => Err(MessageError::JsonCouldntParse(e)),
        }
    }
}

impl Config {
    /// Reads the reply to `get_config` from its JSON text.
    pub fn from_str(s: &str) -> (r: Result<Self, MessageError>)
        ensures
            decodes(s@, r, |j: Json| field_str_of(j, "config"@) is Some, |j: Json, c: Self| field_str_of(j, "config"@) == Some(c.config@)),
    {
        match parse_value(s) {
            Ok(v) => match field_str(&v, "config") {
                Some(config) => Ok(Config { config }),
                None => Err(MessageError::Schema),
            },
            Err(e) => Err(MessageError::JsonCouldntParse(e)),
        }
    }
}

impl Subscribe {
    /// Reads the reply to `subscribe` from its JSON text.
    pub fn from_str(s: &str) -> (r: Result<Self, MessageError>)
        ensures
            decodes(s@, r, |j: Json| field_bool_of(j, "success"@) is Some, |j: Json, x: Self| field_bool_of(j, "success"@) == Some(x.success)),
    {
        match parse_value(s) {
            Ok(v) => match field_bool(&v, "success") {
                Some(success) => Ok(Subscribe { success }),
                None => Err(MessageError::Schema),
            },
            Err(e) => Err(MessageError::JsonCouldntParse(e)),
        }
    }
}

/// The value of the last entry for `key`, the way a map that took the entries
/// in order would hold it.
pub open spec fn last_value<K>(s: Seq<(K, String)>, key: K) -> Option<Seq<char>>
    decreases s.len(),
{
    if s.len() == 0 {
        None
    } else if s.last().0 == key {
        Some(s.last().1@)
    } else {
        last_value(s.drop_last(), key)
    }
}

impl BarConfig {
    /// The color of a part of the bar: the last one the reply gave for it.
    pub fn color(&self, part: ColorableBarPart) -> (r: Option<&String>)
        ensures
            match last_value(self.colors@, part) {
                Some(c) => r matches Some(s) && s@ == c,
                None => r is None,
            },
    {
        let mut i: usize = self.colors.len();
        assert(self.colors@.subrange(0, i as int) == self.colors@);
        while i > 0
            invariant
                i <= self.colors@.len(),
                last_value(self.colors@, part) == last_value(self.colors@.subrange(0, i as int), part),
            decreases i,
        {
            let ghost s = self.colors@.subrange(0, i as int);
            assert(s.drop_last() == self.colors@.subrange(0, i - 1));
            if self.colors[i - 1].0 == part {
                return Some(&self.colors[i - 1].1);
            }
            i = i - 1;
        }
        None
    }
}

fn last_property(props: &Vec<(WindowProperty, String)>, property: WindowProperty) -> (r: Option<
    &String,
>)
    ensures
        match last_value(props@, property) {
            Some(c) => r matches Some(s) && s@ == c,
            None => r is None,
        },
{
    let mut i: usize = props.len();
    assert(props@.subrange(0, i as int) == props@);
    while i > 0
        invariant
            i <= props@.len(),
            last_value(props@, property) == last_value(props@.subrange(0, i as int), property),
        decreases i,
    {
        let ghost s = props@.subrange(0, i as int);
        assert(s.drop_last() == props@.subrange(0, i - 1));
        if props[i - 1].0 == property {
            return Some(&props[i - 1].1);
        }
        i = i - 1;
    }
    None
}

impl Node {
    /// The value of a window property: the last one the reply gave for it.
    pub fn window_property(&self, property: WindowProperty) -> (r: Option<&String>)
        ensures
            match self.window_properties {
                Some(props) => match last_value(props@, property) {
                    Some(c) => r matches Some(s) && s@ == c,
                    None => r is None,
                },
                None => r is None,
            },
    {
        match &self.window_properties {
            None => None,
            Some(props) => last_property(props, property),
        }
    }
}

} // verus!
