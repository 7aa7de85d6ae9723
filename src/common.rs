//! Builders shared by replies and events: the container tree, rectangles,
//! window properties and bar configurations.
use crate::json::{
    bool_of, field_bool, field_bool_of, field_i64, field_i64_of, field_str, field_str_of, get,
    i64_of, json_tree, lemma_get_decreases, member, members, number_as_i64, str_of, Json,
};
use crate::reply::{
    BarConfig, ColorableBarPart, Mode, Node, NodeBorder, NodeLayout, NodeType, WindowProperty,
};
use crate::strings::str_eq;
use vstd::prelude::*;

verus! {

/// The view of an optional text.
pub open spec fn opt_view(o: Option<String>) -> Option<Seq<char>> {
    match o {
        Some(s) => Some(s@),
        None => None,
    }
}

/// The views of a list of keyed texts.
pub open spec fn pairs_view<K>(v: Seq<(K, String)>) -> Seq<(K, Seq<char>)> {
    v.map_values(|e: (K, String)| (e.0, e.1@))
}

pub open spec fn node_type_of(s: Seq<char>) -> NodeType {
    if s == "root"@ {
        NodeType::Root
    } else if s == "output"@ {
        NodeType::Output
    } else if s == "con"@ {
        NodeType::Con
    } else if s == "floating_con"@ {
        NodeType::FloatingCon
    } else if s == "workspace"@ {
        NodeType::Workspace
    } else if s == "dockarea"@ {
        NodeType::DockArea
    } else {
        NodeType::Unknown
    }
}

pub open spec fn node_border_of(s: Seq<char>) -> NodeBorder {
    if s == "normal"@ {
        NodeBorder::Normal
    } else if s == "none"@ {
        NodeBorder::NoBorder
    } else if s == "pixel"@ {
        NodeBorder::Pixel
    } else {
        NodeBorder::Unknown
    }
}

pub open spec fn node_layout_of(s: Seq<char>) -> NodeLayout {
    if s == "splith"@ {
        NodeLayout::SplitH
    } else if s == "splitv"@ {
        NodeLayout::SplitV
    } else if s == "stacked"@ {
        NodeLayout::Stacked
    } else if s == "tabbed"@ {
        NodeLayout::Tabbed
    } else if s == "dockarea"@ {
        NodeLayout::DockArea
    } else if s == "output"@ {
        NodeLayout::Output
    } else {
        NodeLayout::Unknown
    }
}

pub open spec fn window_property_of(s: Seq<char>) -> Option<WindowProperty> {
    if s == "class"@ {
        Some(WindowProperty::Class)
    } else if s == "instance"@ {
        Some(WindowProperty::Instance)
    } else if s == "window_role"@ {
        Some(WindowProperty::WindowRole)
    } else if s == "title"@ {
        Some(WindowProperty::Title)
    } else if s == "transient_for"@ {
        Some(WindowProperty::TransientFor)
    } else if s == "machine"@ {
        Some(WindowProperty::Machine)
    } else {
        None
    }
}

pub open spec fn bar_part_of(s: Seq<char>) -> ColorableBarPart {
    if s == "background"@ {
        ColorableBarPart::Background
    } else if s == "statusline"@ {
        ColorableBarPart::Statusline
    } else if s == "separator"@ {
        ColorableBarPart::Separator
    } else if s == "focused_background"@ {
        ColorableBarPart::FocusedBackground
    } else if s == "focused_statusline"@ {
        ColorableBarPart::FocusedStatusline
    } else if s == "focused_separator"@ {
        ColorableBarPart::FocusedSeparator
    } else if s == "focused_workspace_text"@ {
        ColorableBarPart::FocusedWorkspaceText
    } else if s == "focused_workspace_bg"@ {
        ColorableBarPart::FocusedWorkspaceBg
    } else if s == "focused_workspace_border"@ {
        ColorableBarPart::FocusedWorkspaceBorder
    } else if s == "active_workspace_text"@ {
        ColorableBarPart::ActiveWorkspaceText
    } else if s == "active_workspace_bg"@ {
        ColorableBarPart::ActiveWorkspaceBg
    } else if s == "active_workspace_border"@ {
        ColorableBarPart::ActiveWorkspaceBorder
    } else if s == "inactive_workspace_text"@ {
        ColorableBarPart::InactiveWorkspaceText
    } else if s == "inactive_workspace_bg"@ {
        ColorableBarPart::InactiveWorkspaceBg
    } else if s == "inactive_workspace_border"@ {
        ColorableBarPart::InactiveWorkspaceBorder
    } else if s == "urgent_workspace_text"@ {
        ColorableBarPart::UrgentWorkspaceText
    } else if s == "urgent_workspace_bg"@ {
        ColorableBarPart::UrgentWorkspaceBg
    } else if s == "urgent_workspace_border"@ {
        ColorableBarPart::UrgentWorkspaceBorder
    } else if s == "binding_mode_text"@ {
        ColorableBarPart::BindingModeText
    } else if s == "binding_mode_bg"@ {
        ColorableBarPart::BindingModeBg
    } else if s == "binding_mode_border"@ {
        ColorableBarPart::BindingModeBorder
    } else {
        ColorableBarPart::Unknown
    }
}

fn node_type_from(s: &str) -> (r: NodeType)
    ensures
        r == node_type_of(s@),
{
    if str_eq(s, "root") {
        NodeType::Root
    } else if str_eq(s, "output") {
        NodeType::Output
    } else if str_eq(s, "con") {
        NodeType::Con
    } else if str_eq(s, "floating_con") {
        NodeType::FloatingCon
    } else if str_eq(s, "workspace") {
        NodeType::Workspace
    } else if str_eq(s, "dockarea") {
        NodeType::DockArea
    } else {
        NodeType::Unknown
    }
}

fn node_border_from(s: &str) -> (r: NodeBorder)
    ensures
        r == node_border_of(s@),
{
    if str_eq(s, "normal") {
        NodeBorder::Normal
    } else if str_eq(s, "none") {
        NodeBorder::NoBorder
    } else if str_eq(s, "pixel") {
        NodeBorder::Pixel
    } else {
        NodeBorder::Unknown
    }
}

fn node_layout_from(s: &str) -> (r: NodeLayout)
    ensures
        r == node_layout_of(s@),
{
    if str_eq(s, "splith") {
        NodeLayout::SplitH
    } else if str_eq(s, "splitv") {
        NodeLayout::SplitV
    } else if str_eq(s, "stacked") {
        NodeLayout::Stacked
    } else if str_eq(s, "tabbed") {
        NodeLayout::Tabbed
    } else if str_eq(s, "dockarea") {
        NodeLayout::DockArea
    } else if str_eq(s, "output") {
        NodeLayout::Output
    } else {
        NodeLayout::Unknown
    }
}

fn window_property_from(s: &str) -> (r: Option<WindowProperty>)
    ensures
        r == window_property_of(s@),
{
    if str_eq(s, "class") {
        Some(WindowProperty::Class)
    } else if str_eq(s, "instance") {
        Some(WindowProperty::Instance)
    } else if str_eq(s, "window_role") {
        Some(WindowProperty::WindowRole)
    } else if str_eq(s, "title") {
        Some(WindowProperty::Title)
    } else if str_eq(s, "transient_for") {
        Some(WindowProperty::TransientFor)
    } else if str_eq(s, "machine") {
        Some(WindowProperty::Machine)
    } else {
        None
    }
}

fn bar_part_from(s: &str) -> (r: ColorableBarPart)
    ensures
        r == bar_part_of(s@),
{
    if str_eq(s, "background") {
        ColorableBarPart::Background
    } else if str_eq(s, "statusline") {
        ColorableBarPart::Statusline
    } else if str_eq(s, "separator") {
        ColorableBarPart::Separator
    } else if str_eq(s, "focused_background") {
        ColorableBarPart::FocusedBackground
    } else if str_eq(s, "focused_statusline") {
        ColorableBarPart::FocusedStatusline
    } else if str_eq(s, "focused_separator") {
        ColorableBarPart::FocusedSeparator
    } else if str_eq(s, "focused_workspace_text") {
        ColorableBarPart::FocusedWorkspaceText
    } else if str_eq(s, "focused_workspace_bg") {
        ColorableBarPart::FocusedWorkspaceBg
    } else if str_eq(s, "focused_workspace_border") {
        ColorableBarPart::FocusedWorkspaceBorder
    } else if str_eq(s, "active_workspace_text") {
        ColorableBarPart::ActiveWorkspaceText
    } else if str_eq(s, "active_workspace_bg") {
        ColorableBarPart::ActiveWorkspaceBg
    } else if str_eq(s, "active_workspace_border") {
        ColorableBarPart::ActiveWorkspaceBorder
    } else if str_eq(s, "inactive_workspace_text") {
        ColorableBarPart::InactiveWorkspaceText
    } else if str_eq(s, "inactive_workspace_bg") {
        ColorableBarPart::InactiveWorkspaceBg
    } else if str_eq(s, "inactive_workspace_border") {
        ColorableBarPart::InactiveWorkspaceBorder
    } else if str_eq(s, "urgent_workspace_text") {
        ColorableBarPart::UrgentWorkspaceText
    } else if str_eq(s, "urgent_workspace_bg") {
        ColorableBarPart::UrgentWorkspaceBg
    } else if str_eq(s, "urgent_workspace_border") {
        ColorableBarPart::UrgentWorkspaceBorder
    } else if str_eq(s, "binding_mode_text") {
        ColorableBarPart::BindingModeText
    } else if str_eq(s, "binding_mode_bg") {
        ColorableBarPart::BindingModeBg
    } else if str_eq(s, "binding_mode_border") {
        ColorableBarPart::BindingModeBorder
    } else {
        ColorableBarPart::Unknown
    }
}

/// The rectangle an object states: x, y, width and height, each cut to 32 bits.
pub open spec fn rect_of(j: Json) -> Option<(i32, i32, i32, i32)> {
    match (
        field_i64_of(j, "x"@),
        field_i64_of(j, "y"@),
        field_i64_of(j, "width"@),
        field_i64_of(j, "height"@),
    ) {
        (Some(x), Some(y), Some(w), Some(h)) => Some((x as i32, y as i32, w as i32, h as i32)),
        _ => None,
    }
}

/// The rectangle under `key`.
pub open spec fn field_rect_of(j: Json, key: Seq<char>) -> Option<(i32, i32, i32, i32)> {
    match get(j, key) {
        Some(x) => rect_of(x),
        None => None,
    }
}

/// Reads a rectangle: x, y, width, height; `None` where one of them is no
/// integer.
pub fn build_rect(jrect: &serde_json::Value) -> (r: Option<(i32, i32, i32, i32)>)
    ensures
        r == rect_of(json_tree(*jrect)),
{
    let x = match field_i64(jrect, "x") {
        Some(x) => x,
        None => return None,
    };
    let y = match field_i64(jrect, "y") {
        Some(y) => y,
        None => return None,
    };
    let width = match field_i64(jrect, "width") {
        Some(w) => w,
        None => return None,
    };
    let height = match field_i64(jrect, "height") {
        Some(h) => h,
        None => return None,
    };
    Some((x as i32, y as i32, width as i32, height as i32))
}

pub(crate) fn field_rect(v: &serde_json::Value, key: &str) -> (r: Option<(i32, i32, i32, i32)>)
    ensures
        r == field_rect_of(json_tree(*v), key@),
{
    match member(v, key) {
        Some(x) => build_rect(x),
        None => None,
    }
}

/// The text of a window property: a string as it is, anything else empty.
pub open spec fn property_text(j: Json) -> Seq<char> {
    match j {
        Json::Str(s) => s,
        _ => Seq::empty(),
    }
}

/// The known window properties among the members of an object, in order.
pub open spec fn properties_of(fs: Seq<(Seq<char>, Json)>) -> Seq<(WindowProperty, Seq<char>)>
    decreases fs.len(),
{
    if fs.len() == 0 {
        Seq::empty()
    } else {
        let p = properties_of(fs.drop_last());
        match window_property_of(fs.last().0) {
            Some(w) => p.push((w, property_text(fs.last().1))),
            None => p,
        }
    }
}

/// Reads the window properties of an object; members with another name are
/// left out. `None` where the value is no object.
pub fn build_window_properties(props: &serde_json::Value) -> (r: Option<
    Vec<(WindowProperty, String)>,
>)
    ensures
        match json_tree(*props) {
            Json::Object(fs) => r matches Some(v) && pairs_view(v@) == properties_of(fs),
            _ => r is None,
        },
{
    let entries = match members(props) {
        Some(e) => e,
        None => return None,
    };
    let ghost fs = json_tree(*props)->Object_0;
    let mut out: Vec<(WindowProperty, String)> = Vec::new();
    let mut i: usize = 0;
    while i < entries.len()
        invariant
            json_tree(*props) == Json::Object(fs),
            entries@.len() == fs.len(),
            forall|k: int|
                0 <= k < fs.len() ==> #[trigger] entries@[k].0@ == fs[k].0 && json_tree(
                    *entries@[k].1,
                ) == fs[k].1,
            i <= entries@.len(),
            pairs_view(out@) == properties_of(fs.subrange(0, i as int)),
        decreases entries@.len() - i,
    {
        let (key, val) = entries[i];
        assert(entries@[i as int].0@ == fs[i as int].0);
        assert(fs.subrange(0, i + 1).drop_last() == fs.subrange(0, i as int));
        match window_property_from(key.as_str()) {
            Some(w) => {
                let text = match val.as_str() {
                    Some(t) => t.to_owned(),
                    None => String::new(),
                };
                let ghost before = out@;
                out.push((w, text));
                assert(pairs_view(out@) == pairs_view(before).push((w, text@)));
            },
            None => {},
        }
        i = i + 1;
    }
    assert(fs.subrange(0, fs.len() as int) == fs);
    Some(out)
}

/// The child nodes under `key`: none where the member is absent, and `None`
/// where it is no array.
pub open spec fn kids_of(j: Json, key: Seq<char>) -> Option<Seq<Json>> {
    match get(j, key) {
        None => Some(Seq::empty()),
        Some(Json::Array(items)) => Some(items),
        Some(_) => None,
    }
}

/// The focus list: empty where absent, and `None` where it is no array of integers.
pub open spec fn focus_of(j: Json) -> Option<Seq<i64>> {
    match get(j, "focus"@) {
        None => Some(Seq::empty()),
        Some(Json::Array(items)) => if forall|i: int| 0 <= i < items.len() ==> (#[trigger] i64_of(items[i])) is Some {
            Some(items.map_values(|x: Json| i64_of(x)->0))
        } else {
            None
        },
        Some(_) => None,
    }
}

/// The name: a string, or `None` where it is absent or of another kind.
pub open spec fn name_of(j: Json) -> Option<Seq<char>> {
    match get(j, "name"@) {
        Some(x) => str_of(x),
        None => None,
    }
}

/// The percentage: a number, or absent or null; `None` where it is anything else.
pub open spec fn percent_of(j: Json) -> Option<Option<serde_json::Number>> {
    match get(j, "percent"@) {
        Some(Json::Number(n)) => Some(Some(n)),
        Some(Json::Null) | None => Some(None),
        _ => None,
    }
}

/// The window id: an integer cut to 32 bits, or absent or null; `None` where
/// it is anything else.
pub open spec fn window_of(j: Json) -> Option<Option<i32>> {
    match get(j, "window"@) {
        Some(Json::Number(n)) => match number_as_i64(n) {
            Some(w) => Some(Some(w as i32)),
            None => None,
        },
        Some(Json::Null) | None => Some(None),
        _ => None,
    }
}

/// The window properties: absent, or an object; `None` where it is neither.
pub open spec fn window_properties_of(j: Json) -> Option<Option<Seq<(WindowProperty, Seq<char>)>>> {
    match get(j, "window_properties"@) {
        None => Some(None),
        Some(Json::Object(fs)) => Some(Some(properties_of(fs))),
        Some(_) => None,
    }
}

/// Whether an object holds every field of a node that is not a child list.
pub open spec fn node_fields_ok(j: Json) -> bool {
    &&& focus_of(j) is Some
    &&& field_i64_of(j, "id"@) is Some
    &&& field_str_of(j, "type"@) is Some
    &&& field_str_of(j, "border"@) is Some
    &&& field_i64_of(j, "current_border_width"@) is Some
    &&& field_str_of(j, "layout"@) is Some
    &&& percent_of(j) is Some
    &&& field_rect_of(j, "rect"@) is Some
    &&& field_rect_of(j, "window_rect"@) is Some
    &&& field_rect_of(j, "deco_rect"@) is Some
    &&& field_rect_of(j, "geometry"@) is Some
    &&& window_of(j) is Some
    &&& window_properties_of(j) is Some
    &&& field_bool_of(j, "urgent"@) is Some
    &&& field_bool_of(j, "focused"@) is Some
}

/// Whether the fields of `n` other than its children are those the object states.
pub open spec fn node_fields_match(j: Json, n: Node) -> bool {
    &&& focus_of(j) == Some(n.focus@)
    &&& field_i64_of(j, "id"@) == Some(n.id)
    &&& name_of(j) == opt_view(n.name)
    &&& n.nodetype == node_type_of(field_str_of(j, "type"@)->0)
    &&& n.border == node_border_of(field_str_of(j, "border"@)->0)
    &&& n.current_border_width == field_i64_of(j, "current_border_width"@)->0 as i32
    &&& n.layout == node_layout_of(field_str_of(j, "layout"@)->0)
    &&& percent_of(j) == Some(n.percent)
    &&& field_rect_of(j, "rect"@) == Some(n.rect)
    &&& field_rect_of(j, "window_rect"@) == Some(n.window_rect)
    &&& field_rect_of(j, "deco_rect"@) == Some(n.deco_rect)
    &&& field_rect_of(j, "geometry"@) == Some(n.geometry)
    &&& window_of(j) == Some(n.window)
    &&& window_properties_of(j) == Some(
        match n.window_properties {
            Some(v) => Some(pairs_view(v@)),
            None => None,
        },
    )
    &&& field_bool_of(j, "urgent"@) == Some(n.urgent)
    &&& field_bool_of(j, "focused"@) == Some(n.focused)
}

/// A child of a node is smaller than the node.
pub proof fn lemma_kids_decrease(j: Json, key: Seq<char>)
    ensures
        kids_of(j, key) matches Some(ks) ==> forall|i: int|
            0 <= i < ks.len() ==> decreases_to!(j => #[trigger] ks[i]),
{
    if let Some(Json::Array(items)) = get(j, key) {
        lemma_get_decreases(j, key);
        assert forall|i: int| 0 <= i < items.len() implies decreases_to!(j => #[trigger] items[i]) by {
            assert(decreases_to!(Json::Array(items) => items));
            assert(decreases_to!(items => items[i]));
        }
    }
}

#[via_fn]
proof fn tree_ok_decreases(j: Json) {
    lemma_kids_decrease(j, "nodes"@);
    lemma_kids_decrease(j, "floating_nodes"@);
}

/// Whether an object is a node all of whose descendants are nodes too.
pub open spec fn tree_ok(j: Json) -> bool
    decreases j via tree_ok_decreases
{
    &&& node_fields_ok(j)
    &&& kids_of(j, "nodes"@) is Some
    &&& kids_of(j, "floating_nodes"@) is Some
    &&& forall|i: int| 0 <= i < kids_of(j, "nodes"@)->0.len() ==> tree_ok(#[trigger] kids_of(j, "nodes"@)->0[i])
    &&& forall|i: int| 0 <= i < kids_of(j, "floating_nodes"@)->0.len() ==> tree_ok(#[trigger] kids_of(j, "floating_nodes"@)->0[i])
}

#[via_fn]
proof fn is_tree_of_decreases(j: Json, n: Node) {
    lemma_kids_decrease(j, "nodes"@);
    lemma_kids_decrease(j, "floating_nodes"@);
}

/// Whether `n`, with all its descendants, is the tree that `j` states.
pub open spec fn is_tree_of(j: Json, n: Node) -> bool
    decreases j via is_tree_of_decreases
{
    &&& node_fields_match(j, n)
    &&& kids_of(j, "nodes"@) is Some
    &&& kids_of(j, "floating_nodes"@) is Some
    &&& n.nodes@.len() == kids_of(j, "nodes"@)->0.len()
    &&& n.floating_nodes@.len() == kids_of(j, "floating_nodes"@)->0.len()
    &&& forall|i: int| 0 <= i < kids_of(j, "nodes"@)->0.len() ==> is_tree_of(#[trigger] kids_of(j, "nodes"@)->0[i], n.nodes@[i])
    &&& forall|i: int| 0 <= i < kids_of(j, "floating_nodes"@)->0.len() ==> is_tree_of(#[trigger] kids_of(j, "floating_nodes"@)->0[i], n.floating_nodes@[i])
}

fn build_focus(val: &serde_json::Value) -> (r: Option<Vec<i64>>)
    ensures
        match focus_of(json_tree(*val)) {
            Some(f) => r matches Some(v) && v@ == f,
            None => r is None,
        },
{
    let x = match member(val, "focus") {
        None => return Some(Vec::new()),
        Some(x) => x,
    };
    let items = match x.as_array() {
        None => return None,
        Some(a) => a,
    };
    let ghost js = json_tree(*x)->Array_0;
    let mut out: Vec<i64> = Vec::new();
    let mut i: usize = 0;
    while i < items.len()
        invariant
            json_tree(*x) == Json::Array(js),
            get(json_tree(*val), "focus"@) == Some(Json::Array(js)),
            items@.len() == js.len(),
            forall|k: int| 0 <= k < js.len() ==> #[trigger] json_tree(items@[k]) == js[k],
            i <= items@.len(),
            out@.len() == i,
            forall|k: int| 0 <= k < i ==> (#[trigger] i64_of(js[k])) == Some(out@[k]),
        decreases items@.len() - i,
    {
        assert(json_tree(items@[i as int]) == js[i as int]);
        match items[i].as_i64() {
            Some(n) => out.push(n),
            None => {
                assert(i64_of(js[i as int]) is None);
                return None;
            },
        }
        i = i + 1;
    }
    assert(out@ =~= js.map_values(|x: Json| i64_of(x)->0));
    Some(out)
}

fn build_children(val: &serde_json::Value, key: &str) -> (r: Option<Vec<Node>>)
    ensures
        match kids_of(json_tree(*val), key@) {
            None => r is None,
            Some(ks) => match r {
                Some(v) => v@.len() == ks.len() && forall|i: int|
                    0 <= i < ks.len() ==> tree_ok(#[trigger] ks[i]) && is_tree_of(ks[i], v@[i]),
                None => exists|i: int| 0 <= i < ks.len() && !tree_ok(#[trigger] ks[i]),
            },
        },
    decreases json_tree(*val), 0nat,
{
    let x = match member(val, key) {
        None => return Some(Vec::new()),
        Some(x) => x,
    };
    assert(get(json_tree(*val), key@) == Some(json_tree(*x)));
    let items = match x.as_array() {
        None => {
            return None;
        },
        Some(a) => a,
    };
    let ghost j = json_tree(*val);
    let ghost ks = json_tree(*x)->Array_0;
    proof {
        lemma_kids_decrease(j, key@);
    }
    let mut out: Vec<Node> = Vec::new();
    let mut i: usize = 0;
    while i < items.len()
        invariant
            json_tree(*x) == Json::Array(ks),
            kids_of(j, key@) == Some(ks),
            j == json_tree(*val),
            forall|k: int| 0 <= k < ks.len() ==> decreases_to!(j => #[trigger] ks[k]),
            items@.len() == ks.len(),
            forall|k: int| 0 <= k < ks.len() ==> #[trigger] json_tree(items@[k]) == ks[k],
            i <= items@.len(),
            out@.len() == i,
            forall|k: int| 0 <= k < i ==> tree_ok(#[trigger] ks[k]) && is_tree_of(ks[k], out@[k]),
        decreases items@.len() - i,
    {
        assert(json_tree(items@[i as int]) == ks[i as int]);
        assert(decreases_to!(j => ks[i as int]));
        match build_tree(&items[i]) {
            Some(n) => out.push(n),
            None => {
                assert(!tree_ok(ks[i as int]));
                assert(kids_of(json_tree(*val), key@)->0 == ks);
                assert(exists|k: int| 0 <= k < ks.len() && !tree_ok(#[trigger] ks[k]));
                return None;
            },
        }
        i = i + 1;
    }
    Some(out)
}

/// Builds the tree of containers that a value states, with all its
/// descendants; `None` where the value or a descendant lacks a field a node
/// must have, or holds one of another kind.
pub fn build_tree(val: &serde_json::Value) -> (r: Option<Node>)
    ensures
        match r {
            Some(n) => tree_ok(json_tree(*val)) && is_tree_of(json_tree(*val), n),
            None => !tree_ok(json_tree(*val)),
        },
    decreases json_tree(*val), 1nat,
{
    let ghost j = json_tree(*val);
    let focus = match build_focus(val) {
        Some(f) => f,
        None => return None,
    };
    let nodes = match build_children(val, "nodes") {
        Some(v) => v,
        None => return None,
    };
    let floating_nodes = match build_children(val, "floating_nodes") {
        Some(v) => v,
        None => return None,
    };
    let id = match field_i64(val, "id") {
        Some(v) => v,
        None => return None,
    };
    let name = match member(val, "name") {
        Some(x) => match x.as_str() {
            Some(s) => Some(s.to_owned()),
            None => None,
        },
        None => None,
    };
    let nodetype = match field_str(val, "type") {
        Some(t) => node_type_from(t.as_str()),
        None => return None,
    };
    let border = match field_str(val, "border") {
        Some(t) => node_border_from(t.as_str()),
        None => return None,
    };
    let current_border_width = match field_i64(val, "current_border_width") {
        Some(v) => v as i32,
        None => return None,
    };
    let layout = match field_str(val, "layout") {
        Some(t) => node_layout_from(t.as_str()),
        None => return None,
    };
    let percent = match member(val, "percent") {
        Some(x) => match x.as_number() {
            Some(n) => Some(n.clone()),
            None => if x.is_null() {
                None
            } else {
                return None;
            },
        },
        None => None,
    };
    let rect = match field_rect(val, "rect") {
        Some(v) => v,
        None => return None,
    };
    let window_rect = match field_rect(val, "window_rect") {
        Some(v) => v,
        None => return None,
    };
    let deco_rect = match field_rect(val, "deco_rect") {
        Some(v) => v,
        None => return None,
    };
    let geometry = match field_rect(val, "geometry") {
        Some(v) => v,
        None => return None,
    };
    let window = match member(val, "window") {
        Some(x) => match x.as_i64() {
            Some(w) => Some(w as i32),
            None => if x.is_null() {
                None
            } else {
                return None;
            },
        },
        None => None,
    };
    let window_properties = match member(val, "window_properties") {
        None => None,
        Some(p) => match build_window_properties(p) {
            Some(v) => Some(v),
            None => return None,
        },
    };
    let urgent = match field_bool(val, "urgent") {
        Some(v) => v,
        None => return None,
    };
    let focused = match field_bool(val, "focused") {
        Some(v) => v,
        None => return None,
    };
    let n = Node {
        focus,
        nodes,
        floating_nodes,
        id,
        name,
        nodetype,
        border,
        current_border_width,
        layout,
        percent,
        rect,
        window_rect,
        deco_rect,
        geometry,
        window,
        window_properties,
        urgent,
        focused,
    };
    assert(node_fields_match(j, n));
    Some(n)
}

/// The colors among the members of an object, each under its part of the
/// bar; `None` where a color is no string.
pub open spec fn colors_of(fs: Seq<(Seq<char>, Json)>) -> Option<Seq<(ColorableBarPart, Seq<char>)>> {
    if forall|i: int| 0 <= i < fs.len() ==> (#[trigger] str_of(fs[i].1)) is Some {
        Some(fs.map_values(|e: (Seq<char>, Json)| (bar_part_of(e.0), str_of(e.1)->0)))
    } else {
        None
    }
}

/// The colors member of a bar configuration.
pub open spec fn bar_colors_of(j: Json) -> Option<Seq<(ColorableBarPart, Seq<char>)>> {
    match get(j, "colors"@) {
        Some(Json::Object(fs)) => colors_of(fs),
        _ => None,
    }
}

/// Whether an object holds every field of a bar configuration.
pub open spec fn bar_config_ok(j: Json) -> bool {
    &&& field_str_of(j, "id"@) is Some
    &&& field_str_of(j, "mode"@) is Some
    &&& field_str_of(j, "position"@) is Some
    &&& field_str_of(j, "status_command"@) is Some
    &&& field_str_of(j, "font"@) is Some
    &&& field_bool_of(j, "workspace_buttons"@) is Some
    &&& field_bool_of(j, "binding_mode_indicator"@) is Some
    &&& field_bool_of(j, "verbose"@) is Some
    &&& bar_colors_of(j) is Some
}

/// Whether `b` is the bar configuration that `j` states.
pub open spec fn is_bar_config_of(j: Json, b: BarConfig) -> bool {
    &&& field_str_of(j, "id"@) == Some(b.id@)
    &&& field_str_of(j, "mode"@) == Some(b.mode@)
    &&& field_str_of(j, "position"@) == Some(b.position@)
    &&& field_str_of(j, "status_command"@) == Some(b.status_command@)
    &&& field_str_of(j, "font"@) == Some(b.font@)
    &&& field_bool_of(j, "workspace_buttons"@) == Some(b.workspace_buttons)
    &&& field_bool_of(j, "binding_mode_indicator"@) == Some(b.binding_mode_indicator)
    &&& field_bool_of(j, "verbose"@) == Some(b.verbose)
    &&& bar_colors_of(j) == Some(pairs_view(b.colors@))
}

fn build_colors(j: &serde_json::Value) -> (r: Option<Vec<(ColorableBarPart, String)>>)
    ensures
        match bar_colors_of(json_tree(*j)) {
            Some(c) => r matches Some(v) && pairs_view(v@) == c,
            None => r is None,
        },
{
    let x = match member(j, "colors") {
        Some(x) => x,
        None => return None,
    };
    let entries = match members(x) {
        Some(e) => e,
        None => return None,
    };
    let ghost fs = json_tree(*x)->Object_0;
    let mut out: Vec<(ColorableBarPart, String)> = Vec::new();
    let mut i: usize = 0;
    while i < entries.len()
        invariant
            json_tree(*x) == Json::Object(fs),
            get(json_tree(*j), "colors"@) == Some(json_tree(*x)),
            entries@.len() == fs.len(),
            forall|k: int|
                0 <= k < fs.len() ==> #[trigger] entries@[k].0@ == fs[k].0 && json_tree(
                    *entries@[k].1,
                ) == fs[k].1,
            i <= entries@.len(),
            out@.len() == i,
            forall|k: int| 0 <= k < i ==> (#[trigger] str_of(fs[k].1)) is Some
                && pairs_view(out@)[k] == (bar_part_of(fs[k].0), str_of(fs[k].1)->0),
        decreases entries@.len() - i,
    {
        let (key, val) = entries[i];
        assert(entries@[i as int].0@ == fs[i as int].0);
        let hex = match val.as_str() {
            Some(t) => t.to_owned(),
            None => {
                assert(str_of(fs[i as int].1) is None);
                return None;
            },
        };
        let part = bar_part_from(key.as_str());
        out.push((part, hex));
        i = i + 1;
    }
    assert(pairs_view(out@) =~= fs.map_values(
        |e: (Seq<char>, Json)| (bar_part_of(e.0), str_of(e.1)->0),
    ));
    Some(out)
}

/// Builds a bar configuration; `None` where a field is missing or of another kind.
pub fn build_bar_config(j: &serde_json::Value) -> (r: Option<BarConfig>)
    ensures
        match r {
            Some(b) => bar_config_ok(json_tree(*j)) && is_bar_config_of(json_tree(*j), b),
            None => !bar_config_ok(json_tree(*j)),
        },
{
    let id = match field_str(j, "id") {
        Some(v) => v,
        None => return None,
    };
    let mode = match field_str(j, "mode") {
        Some(v) => v,
        None => return None,
    };
    let position = match field_str(j, "position") {
        Some(v) => v,
        None => return None,
    };
    let status_command = match field_str(j, "status_command") {
        Some(v) => v,
        None => return None,
    };
    let font = match field_str(j, "font") {
        Some(v) => v,
        None => return None,
    };
    let workspace_buttons = match field_bool(j, "workspace_buttons") {
        Some(v) => v,
        None => return None,
    };
    let binding_mode_indicator = match field_bool(j, "binding_mode_indicator") {
        Some(v) => v,
        None => return None,
    };
    let verbose = match field_bool(j, "verbose") {
        Some(v) => v,
        None => return None,
    };
    let colors = match build_colors(j) {
        Some(v) => v,
        None => return None,
    };
    Some(
        BarConfig {
            id,
            mode,
            position,
            status_command,
            font,
            workspace_buttons,
            binding_mode_indicator,
            verbose,
            colors,
        },
    )
}

/// The video mode an object states: width, height and refresh rate, each
/// cut to 32 bits.
pub open spec fn mode_of(j: Json) -> Option<Mode> {
    match (
        field_i64_of(j, "width"@),
        field_i64_of(j, "height"@),
        field_i64_of(j, "refresh"@),
    ) {
        (Some(w), Some(h), Some(f)) => Some(Mode { width: w as i32, height: h as i32, refresh: f as i32 }),
        _ => None,
    }
}

/// The video modes an array states; `None` where it is no array of modes.
pub open spec fn modes_of(j: Json) -> Option<Seq<Mode>> {
    match j {
        Json::Array(items) => if forall|i: int| 0 <= i < items.len() ==> (#[trigger] mode_of(items[i])) is Some {
            Some(items.map_values(|x: Json| mode_of(x)->0))
        } else {
            None
        },
        _ => None,
    }
}

/// Reads a video mode of an output.
pub fn build_mode(jmode: &serde_json::Value) -> (r: Option<Mode>)
    ensures
        r == mode_of(json_tree(*jmode)),
{
    let width = match field_i64(jmode, "width") {
        Some(v) => v,
        None => return None,
    };
    let height = match field_i64(jmode, "height") {
        Some(v) => v,
        None => return None,
    };
    let refresh = match field_i64(jmode, "refresh") {
        Some(v) => v,
        None => return None,
    };
    Some(Mode { width: width as i32, height: height as i32, refresh: refresh as i32 })
}

/// Reads the video modes of an output.
pub fn build_modes(j: &serde_json::Value) -> (r: Option<Vec<Mode>>)
    ensures
        match modes_of(json_tree(*j)) {
            Some(m) => r matches Some(v) && v@ == m,
            None => r is None,
        },
{
    let items = match j.as_array() {
        Some(a) => a,
        None => return None,
    };
    let ghost js = json_tree(*j)->Array_0;
    let mut res: Vec<Mode> = Vec::new();
    let mut i: usize = 0;
    while i < items.len()
        invariant
            json_tree(*j) == Json::Array(js),
            items@.len() == js.len(),
            forall|k: int| 0 <= k < js.len() ==> #[trigger] json_tree(items@[k]) == js[k],
            i <= items@.len(),
            res@.len() == i,
            forall|k: int| 0 <= k < i ==> (#[trigger] mode_of(js[k])) == Some(res@[k]),
        decreases items@.len() - i,
    {
        assert(json_tree(items@[i as int]) == js[i as int]);
        match build_mode(&items[i]) {
            Some(m) => res.push(m),
            None => return None,
        }
        i = i + 1;
    }
    assert(res@ =~= js.map_values(|x: Json| mode_of(x)->0));
    Some(res)
}

/// The views of a list of texts.
pub open spec fn texts_view(v: Seq<String>) -> Seq<Seq<char>> {
    v.map_values(|s: String| s@)
}

/// The texts an array states; `None` where it is no array of strings.
pub open spec fn strings_of(j: Json) -> Option<Seq<Seq<char>>> {
    match j {
        Json::Array(items) => if forall|i: int| 0 <= i < items.len() ==> (#[trigger] str_of(items[i])) is Some {
            Some(items.map_values(|x: Json| str_of(x)->0))
        } else {
            None
        },
        _ => None,
    }
}

/// Reads an array of strings.
pub fn build_strings(j: &serde_json::Value) -> (r: Option<Vec<String>>)
    ensures
        match strings_of(json_tree(*j)) {
            Some(ss) => r matches Some(v) && texts_view(v@) == ss,
            None => r is None,
        },
{
    let items = match j.as_array() {
        Some(a) => a,
        None => return None,
    };
    let ghost js = json_tree(*j)->Array_0;
    let mut res: Vec<String> = Vec::new();
    let mut i: usize = 0;
    while i < items.len()
        invariant
            json_tree(*j) == Json::Array(js),
            items@.len() == js.len(),
            forall|k: int| 0 <= k < js.len() ==> #[trigger] json_tree(items@[k]) == js[k],
            i <= items@.len(),
            res@.len() == i,
            forall|k: int| 0 <= k < i ==> (#[trigger] str_of(js[k])) == Some(res@[k]@),
        decreases items@.len() - i,
    {
        assert(json_tree(items@[i as int]) == js[i as int]);
        match items[i].as_str() {
            Some(t) => res.push(t.to_owned()),
            None => {
                assert(str_of(js[i as int]) is None);
                return None;
            },
        }
        i = i + 1;
    }
    assert(texts_view(res@) =~= js.map_values(|x: Json| str_of(x)->0));
    Some(res)
}

/// Any name that is not in the table of node types reads as `Unknown`.
pub proof fn lemma_unknown_node_type(s: Seq<char>)
    requires
        s != "root"@,
        s != "output"@,
        s != "con"@,
        s != "floating_con"@,
        s != "workspace"@,
        s != "dockarea"@,
    ensures
        node_type_of(s) == NodeType::Unknown,
{
}

} // verus!
