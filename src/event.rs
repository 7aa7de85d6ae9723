//! The events that i3 sends to a subscribed connection, as typed values.
use crate::common::{
    bar_config_ok, build_bar_config, build_strings, build_tree, is_bar_config_of, is_tree_of,
    opt_view, strings_of, texts_view, tree_ok,
};
use crate::json::{
    field_i64, field_i64_of, field_str, field_str_of, get, json_text, json_tree, member,
    parse_value, Json, decodes,
};
use crate::reply::{BarConfig, Node};
use crate::MessageError;
use vstd::prelude::*;

pub mod inner;

use self::inner::{
    binding_change_from, binding_change_of, input_type_from, input_type_of, output_change_from,
    output_change_of, shutdown_change_from, shutdown_change_of, window_change_from,
    window_change_of, workspace_change_from, workspace_change_of, Binding, BindingChange,
    OutputChange, ShutdownChange, WindowChange, WorkspaceChange,
};

verus! {

/// An event passed back from i3.
#[derive(Debug)]
pub enum Event {
    WorkspaceEvent(WorkspaceEventInfo),
    OutputEvent(OutputEventInfo),
    ModeEvent(ModeEventInfo),
    WindowEvent(WindowEventInfo),
    BarConfigEvent(BarConfigEventInfo),
    BindingEvent(BindingEventInfo),
    ShutdownEvent(ShutdownEventInfo),
}

/// Data for `WorkspaceEvent`.
#[derive(Debug)]
pub struct WorkspaceEventInfo {
    /// The type of change.
    pub change: WorkspaceChange,
    /// The workspace affected, where the change affects one.
    pub current: Option<Node>,
    /// The workspace focused before, for a focus change where there was one.
    pub old: Option<Node>,
}

/// Data for `OutputEvent`.
#[derive(Debug)]
pub struct OutputEventInfo {
    /// The type of change.
    pub change: OutputChange,
}

/// Data for `ModeEvent`.
#[derive(Debug)]
pub struct ModeEventInfo {
    /// The name of the binding mode now in use; the default mode is `default`.
    pub change: String,
}

/// Data for `WindowEvent`.
#[derive(Debug)]
pub struct WindowEventInfo {
    /// The type of change.
    pub change: WindowChange,
    /// The window's parent container.
    pub container: Node,
}

/// Data for `BarConfigEvent`.
#[derive(Debug)]
pub struct BarConfigEventInfo {
    /// The new bar configuration.
    pub bar_config: BarConfig,
}

/// Data for `BindingEvent`: a binding that ran a command because of user input.
#[derive(Debug)]
pub struct BindingEventInfo {
    /// The kind of binding event.
    pub change: BindingChange,
    pub binding: Binding,
}

/// Data for `ShutdownEvent`.
#[derive(Debug)]
pub struct ShutdownEventInfo {
    pub change: ShutdownChange,
}

/// Whether a value is null or a well-formed tree.
pub open spec fn opt_tree_ok(x: Json) -> bool {
    x is Null || tree_ok(x)
}

/// Whether `n` is what a value that is null or a tree states.
pub open spec fn is_opt_tree_of(x: Json, n: Option<Node>) -> bool {
    match n {
        None => x is Null,
        Some(m) => !(x is Null) && is_tree_of(x, m),
    }
}

pub open spec fn workspace_event_ok(j: Json) -> bool {
    &&& field_str_of(j, "change"@) is Some
    &&& get(j, "current"@) matches Some(c) && opt_tree_ok(c)
    &&& get(j, "old"@) matches Some(o) ==> opt_tree_ok(o)
}

pub open spec fn is_workspace_event_of(j: Json, e: WorkspaceEventInfo) -> bool {
    &&& e.change == workspace_change_of(field_str_of(j, "change"@)->0)
    &&& is_opt_tree_of(get(j, "current"@)->0, e.current)
    &&& match get(j, "old"@) {
        Some(o) => is_opt_tree_of(o, e.old),
        None => e.old is None,
    }
}

pub open spec fn output_event_ok(j: Json) -> bool {
    field_str_of(j, "change"@) is Some
}

pub open spec fn is_output_event_of(j: Json, e: OutputEventInfo) -> bool {
    e.change == output_change_of(field_str_of(j, "change"@)->0)
}

pub open spec fn mode_event_ok(j: Json) -> bool {
    field_str_of(j, "change"@) is Some
}

pub open spec fn is_mode_event_of(j: Json, e: ModeEventInfo) -> bool {
    field_str_of(j, "change"@) == Some(e.change@)
}

pub open spec fn window_event_ok(j: Json) -> bool {
    &&& field_str_of(j, "change"@) is Some
    &&& get(j, "container"@) matches Some(c) && tree_ok(c)
}

pub open spec fn is_window_event_of(j: Json, e: WindowEventInfo) -> bool {
    &&& e.change == window_change_of(field_str_of(j, "change"@)->0)
    &&& is_tree_of(get(j, "container"@)->0, e.container)
}

/// The symbol of a binding: a string or null; `None` where it is neither.
pub open spec fn symbol_of(b: Json) -> Option<Option<Seq<char>>> {
    match get(b, "symbol"@) {
        Some(Json::Str(s)) => Some(Some(s)),
        Some(Json::Null) => Some(None),
        _ => None,
    }
}

/// The modifier keys of a binding.
pub open spec fn mask_of(b: Json) -> Option<Seq<Seq<char>>> {
    match get(b, "event_state_mask"@) {
        Some(m) => strings_of(m),
        None => None,
    }
}

pub open spec fn binding_ok(b: Json) -> bool {
    &&& field_str_of(b, "command"@) is Some
    &&& mask_of(b) is Some
    &&& field_i64_of(b, "input_code"@) is Some
    &&& symbol_of(b) is Some
    &&& field_str_of(b, "input_type"@) is Some
}

pub open spec fn is_binding_of(b: Json, x: Binding) -> bool {
    &&& field_str_of(b, "command"@) == Some(x.command@)
    &&& mask_of(b) == Some(texts_view(x.event_state_mask@))
    &&& x.input_code == field_i64_of(b, "input_code"@)->0 as i32
    &&& symbol_of(b) == Some(opt_view(x.symbol))
    &&& x.input_type == input_type_of(field_str_of(b, "input_type"@)->0)
}

pub open spec fn binding_event_ok(j: Json) -> bool {
    &&& get(j, "binding"@) matches Some(b) && binding_ok(b)
    &&& field_str_of(j, "change"@) is Some
}

pub open spec fn is_binding_event_of(j: Json, e: BindingEventInfo) -> bool {
    &&& e.change == binding_change_of(field_str_of(j, "change"@)->0)
    &&& is_binding_of(get(j, "binding"@)->0, e.binding)
}

pub open spec fn shutdown_event_ok(j: Json) -> bool {
    field_str_of(j, "change"@) is Some
}

pub open spec fn is_shutdown_event_of(j: Json, e: ShutdownEventInfo) -> bool {
    e.change == shutdown_change_of(field_str_of(j, "change"@)->0)
}

/// Whether a document is an event of category `c`.
pub open spec fn event_ok(c: u32, j: Json) -> bool {
    match c {
        0 => workspace_event_ok(j),
        1 => output_event_ok(j),
        2 => mode_event_ok(j),
        3 => window_event_ok(j),
        4 => bar_config_ok(j),
        5 => binding_event_ok(j),
        _ => shutdown_event_ok(j),
    }
}

/// Whether `e` is the event of category `c` that a document states.
pub open spec fn is_event_of(c: u32, j: Json, e: Event) -> bool {
    match e {
        Event::WorkspaceEvent(x) => c == 0 && is_workspace_event_of(j, x),
        Event::OutputEvent(x) => c == 1 && is_output_event_of(j, x),
        Event::ModeEvent(x) => c == 2 && is_mode_event_of(j, x),
        Event::WindowEvent(x) => c == 3 && is_window_event_of(j, x),
        Event::BarConfigEvent(x) => c == 4 && is_bar_config_of(j, x.bar_config),
        Event::BindingEvent(x) => c == 5 && is_binding_event_of(j, x),
        Event::ShutdownEvent(x) => c == 6 && is_shutdown_event_of(j, x),
    }
}

fn build_opt_tree(x: &serde_json::Value) -> (r: Option<Option<Node>>)
    ensures
        match r {
            Some(n) => opt_tree_ok(json_tree(*x)) && is_opt_tree_of(json_tree(*x), n),
            None => !opt_tree_ok(json_tree(*x)),
        },
{
    if x.is_null() {
        Some(None)
    } else {
        match build_tree(x) {
            Some(n) => Some(Some(n)),
            None => None,
        }
    }
}

impl WorkspaceEventInfo {
    /// Reads a workspace event from its document.
    pub fn from_value(val: &serde_json::Value) -> (r: Option<Self>)
        ensures
            match r {
                Some(e) => workspace_event_ok(json_tree(*val)) && is_workspace_event_of(json_tree(*val), e),
                None => !workspace_event_ok(json_tree(*val)),
            },
    {
        let change = match field_str(val, "change") {
            Some(c) => workspace_change_from(c.as_str()),
            None => return None,
        };
        let current = match member(val, "current") {
            Some(c) => match build_opt_tree(c) {
                Some(n) => n,
                None => return None,
            },
            None => return None,
        };
        let old = match member(val, "old") {
            Some(o) => match build_opt_tree(o) {
                Some(n) => n,
                None => return None,
            },
            None => None,
        };
        Some(WorkspaceEventInfo { change, current, old })
    }

    /// Reads a workspace event from its JSON text.
    pub fn from_str(s: &str) -> (r: Result<Self, MessageError>)
        ensures
            decodes(s@, r, |j: Json| workspace_event_ok(j), |j: Json, e: Self| is_workspace_event_of(j, e)),
    {
        match parse_value(s) {
            Ok(v) => match Self::from_value(&v) {
                Some(e) => Ok(e),
                None => Err(MessageError::Schema),
            },
            Err(e) => Err(MessageError::JsonCouldntParse(e)),
        }
    }
}

impl OutputEventInfo {
    /// Reads an output event from its document.
    pub fn from_value(val: &serde_json::Value) -> (r: Option<Self>)
        ensures
            match r {
                Some(e) => output_event_ok(json_tree(*val)) && is_output_event_of(json_tree(*val), e),
                None => !output_event_ok(json_tree(*val)),
            },
    {
        match field_str(val, "change") {
            Some(c) => Some(OutputEventInfo { change: output_change_from(c.as_str()) }),
            None => None,
        }
    }

    /// Reads an output event from its JSON text.
    pub fn from_str(s: &str) -> (r: Result<Self, MessageError>)
        ensures
            decodes(s@, r, |j: Json| output_event_ok(j), |j: Json, e: Self| is_output_event_of(j, e)),
    {
        match parse_value(s) {
            Ok(v) => match Self::from_value(&v) {
                Some(e) => Ok(e),
                None => Err(MessageError::Schema),
            },
            Err(e) => Err(MessageError::JsonCouldntParse(e)),
        }
    }
}

impl ModeEventInfo {
    /// Reads a mode event from its document.
    pub fn from_value(val: &serde_json::Value) -> (r: Option<Self>)
        ensures
            match r {
                Some(e) => mode_event_ok(json_tree(*val)) && is_mode_event_of(json_tree(*val), e),
                None => !mode_event_ok(json_tree(*val)),
            },
    {
        match field_str(val, "change") {
            Some(c) => Some(ModeEventInfo { change: c }),
            None => None,
        }
    }

    /// Reads a mode event from its JSON text.
    pub fn from_str(s: &str) -> (r: Result<Self, MessageError>)
        ensures
            decodes(s@, r, |j: Json| mode_event_ok(j), |j: Json, e: Self| is_mode_event_of(j, e)),
    {
        match parse_value(s) {
            Ok(v) => match Self::from_value(&v) {
                Some(e) => Ok(e),
                None => Err(MessageError::Schema),
            },
            Err(e) => Err(MessageError::JsonCouldntParse(e)),
        }
    }
}

impl WindowEventInfo {
    /// Reads a window event from its document.
    pub fn from_value(val: &serde_json::Value) -> (r: Option<Self>)
        ensures
            match r {
                Some(e) => window_event_ok(json_tree(*val)) && is_window_event_of(json_tree(*val), e),
                None => !window_event_ok(json_tree(*val)),
            },
    {
        let change = match field_str(val, "change") {
            Some(c) => window_change_from(c.as_str()),
            None => return None,
        };
        let container = match member(val, "container") {
            Some(c) => match build_tree(c) {
                Some(n) => n,
                None => return None,
            },
            None => return None,
        };
        Some(WindowEventInfo { change, container })
    }

    /// Reads a window event from its JSON text.
    pub fn from_str(s: &str) -> (r: Result<Self, MessageError>)
        ensures
            decodes(s@, r, |j: Json| window_event_ok(j), |j: Json, e: Self| is_window_event_of(j, e)),
    {
        match parse_value(s) {
            Ok(v) => match Self::from_value(&v) {
                Some(e) => Ok(e),
                None => Err(MessageError::Schema),
            },
            Err(e) => Err(MessageError::JsonCouldntParse(e)),
        }
    }
}

impl BarConfigEventInfo {
    /// Reads a bar configuration event from its document.
    pub fn from_value(val: &serde_json::Value) -> (r: Option<Self>)
        ensures
            match r {
                Some(e) => bar_config_ok(json_tree(*val)) && is_bar_config_of(json_tree(*val), e.bar_config),
                None => !bar_config_ok(json_tree(*val)),
            },
    {
        match build_bar_config(val) {
            Some(b) => Some(BarConfigEventInfo { bar_config: b }),
            None => None,
        }
    }

    /// Reads a bar configuration event from its JSON text.
    pub fn from_str(s: &str) -> (r: Result<Self, MessageError>)
        ensures
            decodes(s@, r, |j: Json| bar_config_ok(j), |j: Json, e: Self| is_bar_config_of(j, e.bar_config)),
    {
        match parse_value(s) {
            Ok(v) => match Self::from_value(&v) {
                Some(e) => Ok(e),
                None => Err(MessageError::Schema),
            },
            Err(e) => Err(MessageError::JsonCouldntParse(e)),
        }
    }
}

fn build_binding(b: &serde_json::Value) -> (r: Option<Binding>)
    ensures
        match r {
            Some(x) => binding_ok(json_tree(*b)) && is_binding_of(json_tree(*b), x),
            None => !binding_ok(json_tree(*b)),
        },
{
    let command = match field_str(b, "command") {
        Some(c) => c,
        None => return None,
    };
    let event_state_mask = match member(b, "event_state_mask") {
        Some(m) => match build_strings(m) {
            Some(v) => v,
            None => return None,
        },
        None => return None,
    };
    let input_code = match field_i64(b, "input_code") {
        Some(c) => c as i32,
        None => return None,
    };
    let symbol = match member(b, "symbol") {
        Some(x) => match x.as_str() {
            Some(t) => Some(t.to_owned()),
            None => if x.is_null() {
                None
            } else {
                return None;
            },
        },
        None => return None,
    };
    let input_type = match field_str(b, "input_type") {
        Some(t) => input_type_from(t.as_str()),
        None => return None,
    };
    Some(Binding { command, event_state_mask, input_code, symbol, input_type })
}

impl BindingEventInfo {
    /// Reads a binding event from its document.
    pub fn from_value(val: &serde_json::Value) -> (r: Option<Self>)
        ensures
            match r {
                Some(e) => binding_event_ok(json_tree(*val)) && is_binding_event_of(json_tree(*val), e),
                None => !binding_event_ok(json_tree(*val)),
            },
    {
        let binding = match member(val, "binding") {
            Some(b) => match build_binding(b) {
                Some(x) => x,
                None => return None,
            },
            None => return None,
        };
        let change = match field_str(val, "change") {
            Some(c) => binding_change_from(c.as_str()),
            None => return None,
        };
        Some(BindingEventInfo { change, binding })
    }

    /// Reads a binding event from its JSON text.
    pub fn from_str(s: &str) -> (r: Result<Self, MessageError>)
        ensures
            decodes(s@, r, |j: Json| binding_event_ok(j), |j: Json, e: Self| is_binding_event_of(j, e)),
    {
        match parse_value(s) {
            Ok(v) => match Self::from_value(&v) {
                Some(e) => Ok(e),
                None => Err(MessageError::Schema),
            },
            Err(e) => Err(MessageError::JsonCouldntParse(e)),
        }
    }
}

impl ShutdownEventInfo {
    /// Reads a shutdown event from its document.
    pub fn from_value(val: &serde_json::Value) -> (r: Option<Self>)
        ensures
            match r {
                Some(e) => shutdown_event_ok(json_tree(*val)) && is_shutdown_event_of(json_tree(*val), e),
                None => !shutdown_event_ok(json_tree(*val)),
            },
    {
        match field_str(val, "change") {
            Some(c) => Some(ShutdownEventInfo { change: shutdown_change_from(c.as_str()) }),
            None => None,
        }
    }

    /// Reads a shutdown event from its JSON text.
    pub fn from_str(s: &str) -> (r: Result<Self, MessageError>)
        ensures
            decodes(s@, r, |j: Json| shutdown_event_ok(j), |j: Json, e: Self| is_shutdown_event_of(j, e)),
    {
        match parse_value(s) {
            Ok(v) => match Self::from_value(&v) {
                Some(e) => Ok(e),
                None => Err(MessageError::Schema),
            },
            Err(e) => Err(MessageError::JsonCouldntParse(e)),
        }
    }
}

/// Builds the event of category `msgtype` (the message type with the event
/// bit cleared) from its payload.
pub fn build_event(msgtype: u32, payload: &str) -> (r: Result<Event, MessageError>)
    requires
        msgtype <= 6,
    ensures
        decodes(payload@, r, |j: Json| event_ok(msgtype, j), |j: Json, e: Event| is_event_of(msgtype, j, e)),
{
    let val = match parse_value(payload) {
        Ok(v) => v,
        Err(e) => return Err(MessageError::JsonCouldntParse(e)),
    };
    let built = if msgtype == 0 {
        match WorkspaceEventInfo::from_value(&val) {
            Some(e) => Some(Event::WorkspaceEvent(e)),
            None => None,
        }
    } else if msgtype == 1 {
        match OutputEventInfo::from_value(&val) {
            Some(e) => Some(Event::OutputEvent(e)),
            None => None,
        }
    } else if msgtype == 2 {
        match ModeEventInfo::from_value(&val) {
            Some(e) => Some(Event::ModeEvent(e)),
            None => None,
        }
    } else if msgtype == 3 {
        match WindowEventInfo::from_value(&val) {
            Some(e) => Some(Event::WindowEvent(e)),
            None => None,
        }
    } else if msgtype == 4 {
        match BarConfigEventInfo::from_value(&val) {
            Some(e) => Some(Event::BarConfigEvent(e)),
            None => None,
        }
    } else if msgtype == 5 {
        match BindingEventInfo::from_value(&val) {
            Some(e) => Some(Event::BindingEvent(e)),
            None => None,
        }
    } else {
        match ShutdownEventInfo::from_value(&val) {
            Some(e) => Some(Event::ShutdownEvent(e)),
            None => None,
        }
    };
    match built {
        Some(e) => Ok(e),
        None => Err(MessageError::Schema),
    }
}

} // verus!
