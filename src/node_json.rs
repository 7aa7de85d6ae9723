//! How a node is written as JSON, and that reading such a document back
//! gives the node.
use crate::common::{
    focus_of, is_tree_of, kids_of, node_border_of, node_layout_of, node_type_of, pairs_view,
    properties_of, tree_ok, window_property_of,
};
use crate::json::{get, i64_of, number_as_i64, Json};
use crate::reply::{Node, NodeBorder, NodeLayout, NodeType, WindowProperty};
use vstd::prelude::*;

verus! {

/// The name i3 uses for a node type.
pub open spec fn node_type_name(t: NodeType) -> Seq<char> {
    match t {
        NodeType::Root => "root"@,
        NodeType::Output => "output"@,
        NodeType::Con => "con"@,
        NodeType::FloatingCon => "floating_con"@,
        NodeType::Workspace => "workspace"@,
        NodeType::DockArea => "dockarea"@,
        NodeType::Unknown => Seq::empty(),
    }
}

/// The name i3 uses for a border style.
pub open spec fn node_border_name(b: NodeBorder) -> Seq<char> {
    match b {
        NodeBorder::Normal => "normal"@,
        NodeBorder::NoBorder => "none"@,
        NodeBorder::Pixel => "pixel"@,
        NodeBorder::Unknown => Seq::empty(),
    }
}

/// The name i3 uses for a layout.
pub open spec fn node_layout_name(l: NodeLayout) -> Seq<char> {
    match l {
        NodeLayout::SplitH => "splith"@,
        NodeLayout::SplitV => "splitv"@,
        NodeLayout::Stacked => "stacked"@,
        NodeLayout::Tabbed => "tabbed"@,
        NodeLayout::DockArea => "dockarea"@,
        NodeLayout::Output => "output"@,
        NodeLayout::Unknown => Seq::empty(),
    }
}

/// The name i3 uses for a window property.
pub open spec fn window_property_name(p: WindowProperty) -> Seq<char> {
    match p {
        WindowProperty::Class => "class"@,
        WindowProperty::Instance => "instance"@,
        WindowProperty::WindowRole => "window_role"@,
        WindowProperty::Title => "title"@,
        WindowProperty::TransientFor => "transient_for"@,
        WindowProperty::Machine => "machine"@,
    }
}

/// Every known node type, border style, layout and window property reads
/// back from its name.
pub proof fn lemma_names_read_back()
    ensures
        forall|t: NodeType| t != NodeType::Unknown ==> #[trigger] node_type_of(node_type_name(t)) == t,
        forall|b: NodeBorder| b != NodeBorder::Unknown ==> #[trigger] node_border_of(node_border_name(b)) == b,
        forall|l: NodeLayout| l != NodeLayout::Unknown ==> #[trigger] node_layout_of(node_layout_name(l)) == l,
        forall|p: WindowProperty| #[trigger] window_property_of(window_property_name(p)) == Some(p),
{
    reveal_strlit("root");
    reveal_strlit("output");
    reveal_strlit("con");
    reveal_strlit("floating_con");
    reveal_strlit("workspace");
    reveal_strlit("dockarea");
    reveal_strlit("normal");
    reveal_strlit("none");
    reveal_strlit("pixel");
    reveal_strlit("splith");
    reveal_strlit("splitv");
    reveal_strlit("stacked");
    reveal_strlit("tabbed");
    reveal_strlit("class");
    reveal_strlit("instance");
    reveal_strlit("window_role");
    reveal_strlit("title");
    reveal_strlit("transient_for");
    reveal_strlit("machine");
    assert("output"@.len() != "root"@.len());
    assert("con"@.len() != "root"@.len());
    assert("con"@.len() != "output"@.len());
    assert("floating_con"@.len() != "root"@.len());
    assert("floating_con"@.len() != "output"@.len());
    assert("floating_con"@.len() != "con"@.len());
    assert("workspace"@.len() != "root"@.len());
    assert("workspace"@.len() != "output"@.len());
    assert("workspace"@.len() != "con"@.len());
    assert("workspace"@.len() != "floating_con"@.len());
    assert("dockarea"@.len() != "root"@.len());
    assert("dockarea"@.len() != "output"@.len());
    assert("dockarea"@.len() != "con"@.len());
    assert("dockarea"@.len() != "floating_con"@.len());
    assert("dockarea"@.len() != "workspace"@.len());
    assert("none"@.len() != "normal"@.len());
    assert("pixel"@.len() != "normal"@.len());
    assert("pixel"@.len() != "none"@.len());
    assert("splitv"@[5] != "splith"@[5]);
    assert("stacked"@.len() != "splith"@.len());
    assert("stacked"@.len() != "splitv"@.len());
    assert("tabbed"@[0] != "splith"@[0]);
    assert("tabbed"@[0] != "splitv"@[0]);
    assert("tabbed"@.len() != "stacked"@.len());
    assert("dockarea"@.len() != "splith"@.len());
    assert("dockarea"@.len() != "splitv"@.len());
    assert("dockarea"@.len() != "stacked"@.len());
    assert("dockarea"@.len() != "tabbed"@.len());
    assert("output"@[0] != "splith"@[0]);
    assert("output"@[0] != "splitv"@[0]);
    assert("output"@.len() != "stacked"@.len());
    assert("output"@[0] != "tabbed"@[0]);
    assert("output"@.len() != "dockarea"@.len());
    assert("instance"@.len() != "class"@.len());
    assert("window_role"@.len() != "class"@.len());
    assert("window_role"@.len() != "instance"@.len());
    assert("title"@[0] != "class"@[0]);
    assert("title"@.len() != "instance"@.len());
    assert("title"@.len() != "window_role"@.len());
    assert("transient_for"@.len() != "class"@.len());
    assert("transient_for"@.len() != "instance"@.len());
    assert("transient_for"@.len() != "window_role"@.len());
    assert("transient_for"@.len() != "title"@.len());
    assert("machine"@.len() != "class"@.len());
    assert("machine"@.len() != "instance"@.len());
    assert("machine"@.len() != "window_role"@.len());
    assert("machine"@.len() != "title"@.len());
    assert("machine"@.len() != "transient_for"@.len());
}

/// Whether `j` has a member `key` that is a number holding the integer `v`.
pub open spec fn int_member(j: Json, key: Seq<char>, v: i64) -> bool {
    get(j, key) matches Some(Json::Number(x)) && number_as_i64(x) == Some(v)
}

/// Whether `x` is a rectangle object holding `r`.
pub open spec fn writes_rect(x: Json, r: (i32, i32, i32, i32)) -> bool {
    &&& int_member(x, "x"@, r.0 as i64)
    &&& int_member(x, "y"@, r.1 as i64)
    &&& int_member(x, "width"@, r.2 as i64)
    &&& int_member(x, "height"@, r.3 as i64)
}

/// Whether `j` has a member `key` that is a rectangle object holding `r`.
pub open spec fn rect_member(j: Json, key: Seq<char>, r: (i32, i32, i32, i32)) -> bool {
    get(j, key) matches Some(x) && writes_rect(x, r)
}

/// Window properties as the members of an object, under their names.
pub open spec fn properties_json(v: Seq<(WindowProperty, String)>) -> Seq<(Seq<char>, Json)> {
    v.map_values(|e: (WindowProperty, String)| (window_property_name(e.0), Json::Str(e.1@)))
}

/// Whether `j` is `n` written as i3 writes a node: every field under its
/// name, names of types, borders and layouts as i3 spells them, absent
/// values as null, window properties as an object (absent where there are
/// none), and the children written the same way. Nodes whose type, border
/// or layout is unknown have no such document.
pub open spec fn writes_node(j: Json, n: Node) -> bool
    decreases n,
{
    &&& n.nodetype != NodeType::Unknown
    &&& n.border != NodeBorder::Unknown
    &&& n.layout != NodeLayout::Unknown
    &&& int_member(j, "id"@, n.id)
    &&& get(j, "name"@) == Some(
        match n.name {
            Some(s) => Json::Str(s@),
            None => Json::Null,
        },
    )
    &&& get(j, "type"@) == Some(Json::Str(node_type_name(n.nodetype)))
    &&& get(j, "border"@) == Some(Json::Str(node_border_name(n.border)))
    &&& int_member(j, "current_border_width"@, n.current_border_width as i64)
    &&& get(j, "layout"@) == Some(Json::Str(node_layout_name(n.layout)))
    &&& get(j, "percent"@) == Some(
        match n.percent {
            Some(x) => Json::Number(x),
            None => Json::Null,
        },
    )
    &&& rect_member(j, "rect"@, n.rect)
    &&& rect_member(j, "window_rect"@, n.window_rect)
    &&& rect_member(j, "deco_rect"@, n.deco_rect)
    &&& rect_member(j, "geometry"@, n.geometry)
    &&& match n.window {
        Some(w) => int_member(j, "window"@, w as i64),
        None => get(j, "window"@) == Some(Json::Null),
    }
    &&& get(j, "window_properties"@) == match n.window_properties {
        Some(v) => Some(Json::Object(properties_json(v@))),
        None => None,
    }
    &&& get(j, "urgent"@) == Some(Json::Bool(n.urgent))
    &&& get(j, "focused"@) == Some(Json::Bool(n.focused))
    &&& get(j, "focus"@) matches Some(Json::Array(xs)) && xs.len() == n.focus@.len() && forall|i: int|
        0 <= i < xs.len() ==> #[trigger] i64_of(xs[i]) == Some(n.focus@[i])
    &&& get(j, "nodes"@) matches Some(Json::Array(ks)) && ks.len() == n.nodes@.len() && forall|i: int|
        0 <= i < ks.len() ==> writes_node(#[trigger] ks[i], n.nodes@[i])
    &&& get(j, "floating_nodes"@) matches Some(Json::Array(ks)) && ks.len()
        == n.floating_nodes@.len() && forall|i: int|
        0 <= i < ks.len() ==> writes_node(#[trigger] ks[i], n.floating_nodes@[i])
}

proof fn lemma_i32_through_i64(v: i32)
    ensures
        (v as i64) as i32 == v,
{
    assert((v as i64) as i32 == v) by (bit_vector);
}

proof fn lemma_rect_reads_back(x: Json, r: (i32, i32, i32, i32))
    requires
        writes_rect(x, r),
    ensures
        crate::common::rect_of(x) == Some(r),
{
    lemma_i32_through_i64(r.0);
    lemma_i32_through_i64(r.1);
    lemma_i32_through_i64(r.2);
    lemma_i32_through_i64(r.3);
}

proof fn lemma_properties_read_back(v: Seq<(WindowProperty, String)>)
    ensures
        properties_of(properties_json(v)) == pairs_view(v),
    decreases v.len(),
{
    lemma_names_read_back();
    if v.len() > 0 {
        lemma_properties_read_back(v.drop_last());
        assert(properties_json(v).drop_last() =~= properties_json(v.drop_last()));
        assert(pairs_view(v) =~= pairs_view(v.drop_last()).push((v.last().0, v.last().1@)));
    } else {
        assert(pairs_view(v) =~= Seq::empty());
    }
}

/// Reading back a node written as i3 writes it gives the node: the document
/// is a well-formed tree and the node is exactly the tree it states, down to
/// every descendant.
pub proof fn lemma_written_node_reads_back(j: Json, n: Node)
    requires
        writes_node(j, n),
    ensures
        tree_ok(j),
        is_tree_of(j, n),
    decreases n,
{
    lemma_names_read_back();
    lemma_i32_through_i64(n.current_border_width);
    if let Some(w) = n.window {
        lemma_i32_through_i64(w);
    }
    lemma_rect_reads_back(get(j, "rect"@)->0, n.rect);
    lemma_rect_reads_back(get(j, "window_rect"@)->0, n.window_rect);
    lemma_rect_reads_back(get(j, "deco_rect"@)->0, n.deco_rect);
    lemma_rect_reads_back(get(j, "geometry"@)->0, n.geometry);
    if let Some(v) = n.window_properties {
        lemma_properties_read_back(v@);
    }
    let xs = get(j, "focus"@)->0->Array_0;
    assert(xs.map_values(|x: Json| i64_of(x)->0) =~= n.focus@);
    assert(focus_of(j) == Some(n.focus@));
    let ks = get(j, "nodes"@)->0->Array_0;
    assert forall|i: int| 0 <= i < ks.len() implies tree_ok(#[trigger] ks[i]) && is_tree_of(ks[i], n.nodes@[i]) by {
        assert(decreases_to!(n => n.nodes));
        assert(decreases_to!(n.nodes => n.nodes@));
        assert(decreases_to!(n.nodes@ => n.nodes@[i]));
        lemma_written_node_reads_back(ks[i], n.nodes@[i]);
    }
    let fs = get(j, "floating_nodes"@)->0->Array_0;
    assert forall|i: int| 0 <= i < fs.len() implies tree_ok(#[trigger] fs[i]) && is_tree_of(fs[i], n.floating_nodes@[i]) by {
        assert(decreases_to!(n => n.floating_nodes));
        assert(decreases_to!(n.floating_nodes => n.floating_nodes@));
        assert(decreases_to!(n.floating_nodes@ => n.floating_nodes@[i]));
        lemma_written_node_reads_back(fs[i], n.floating_nodes@[i]);
    }
    assert(kids_of(j, "nodes"@) == Some(ks));
    assert(kids_of(j, "floating_nodes"@) == Some(fs));
}

} // verus!
