use i3ipc::common::build_tree;
use i3ipc::reply::{
    BarConfig, BarIds, BindingModes, ColorableBarPart, Command, Config, Marks, Node, NodeBorder,
    NodeLayout, NodeType, Outputs, Subscribe, Version, Workspaces,
};
use i3ipc::{subscription_payload, MessageError, Subscription};

#[test]
fn workspace_scenario() {
    let text = r#"[{"num":1,"name":"1","visible":true,"focused":true,"urgent":false,"rect":{"x":0,"y":0,"width":1920,"height":1080},"output":"eDP-1"}]"#;
    let w = Workspaces::from_str(text).unwrap();
    assert_eq!(w.workspaces.len(), 1);
    let ws = &w.workspaces[0];
    assert_eq!(ws.num, 1);
    assert_eq!(ws.name, "1");
    assert!(ws.visible);
    assert!(ws.focused);
    assert!(!ws.urgent);
    assert_eq!(ws.rect, (0, 0, 1920, 1080));
    assert_eq!(ws.output, "eDP-1");
}

#[test]
fn workspace_missing_output_is_a_schema_error() {
    let text = r#"[{"num":1,"name":"1","visible":true,"focused":true,"urgent":false,"rect":{"x":0,"y":0,"width":1920,"height":1080}}]"#;
    assert!(matches!(Workspaces::from_str(text), Err(MessageError::Schema)));
}

#[test]
fn run_command_outcomes_in_order() {
    let c = Command::from_str(r#"[{"success":true},{"success":false,"error":"bad syntax"}]"#).unwrap();
    assert_eq!(c.outcomes.len(), 2);
    assert!(c.outcomes[0].success);
    assert_eq!(c.outcomes[0].error, None);
    assert!(!c.outcomes[1].success);
    assert_eq!(c.outcomes[1].error.as_deref(), Some("bad syntax"));
}

#[test]
fn run_command_empty_reply() {
    assert_eq!(Command::from_str("[]").unwrap().outcomes.len(), 0);
}

#[test]
fn run_command_not_an_array() {
    assert!(matches!(Command::from_str(r#"{"success":true}"#), Err(MessageError::Schema)));
    assert!(matches!(Command::from_str("[{"), Err(MessageError::JsonCouldntParse(_))));
}

#[test]
fn outputs_decode() {
    let text = r#"[{"name":"eDP-1","active":true,"primary":true,"current_workspace":"1","rect":{"x":0,"y":0,"width":1920,"height":1080}},
                   {"name":"xroot-0","active":false,"primary":false,"current_workspace":null,"rect":{"x":0,"y":0,"width":3840,"height":1080}}]"#;
    let o = Outputs::from_str(text).unwrap();
    assert_eq!(o.outputs.len(), 2);
    assert_eq!(o.outputs[0].current_workspace.as_deref(), Some("1"));
    assert!(o.outputs[1].current_workspace.is_none());
    assert_eq!(o.outputs[1].rect, (0, 0, 3840, 1080));
    let bad = r#"[{"name":"x","active":true,"primary":true,"current_workspace":3,"rect":{"x":0,"y":0,"width":1,"height":1}}]"#;
    assert!(matches!(Outputs::from_str(bad), Err(MessageError::Schema)));
}

#[test]
fn version_decodes() {
    let v = Version::from_str(r#"{"major":4,"minor":22,"patch":1,"human_readable":"4.22.1","loaded_config_file_name":"/etc/i3/config"}"#).unwrap();
    assert_eq!((v.major, v.minor, v.patch), (4, 22, 1));
    assert_eq!(v.human_readable, "4.22.1");
    assert_eq!(v.loaded_config_file_name, "/etc/i3/config");
}

#[test]
fn string_list_replies() {
    assert_eq!(Marks::from_str(r#"["a","b"]"#).unwrap().marks, vec!["a".to_string(), "b".to_string()]);
    assert_eq!(BarIds::from_str(r#"["bar-0"]"#).unwrap().ids, vec!["bar-0".to_string()]);
    assert_eq!(BindingModes::from_str(r#"["default","resize"]"#).unwrap().modes.len(), 2);
    assert!(matches!(Marks::from_str(r#"["a",1]"#), Err(MessageError::Schema)));
}

#[test]
fn config_and_subscribe_replies() {
    assert_eq!(Config::from_str(r#"{"config":"bindsym x nop"}"#).unwrap().config, "bindsym x nop");
    assert!(Subscribe::from_str(r#"{"success":true}"#).unwrap().success);
    assert!(!Subscribe::from_str(r#"{"success":false}"#).unwrap().success);
    assert!(matches!(Subscribe::from_str("{}"), Err(MessageError::Schema)));
}

#[test]
fn bar_config_unknown_color_is_kept() {
    let text = r##"{"id":"bar-0","mode":"dock","position":"bottom","status_command":"i3status","font":"mono","workspace_buttons":true,"binding_mode_indicator":true,"verbose":false,
                    "colors":{"background":"#000000","totally_new_color":"#123456"}}"##;
    let b = BarConfig::from_str(text).unwrap();
    assert_eq!(b.color(ColorableBarPart::Unknown).map(|s| s.as_str()), Some("#123456"));
    assert_eq!(b.color(ColorableBarPart::Background).map(|s| s.as_str()), Some("#000000"));
    assert!(b.color(ColorableBarPart::Separator).is_none());
    assert_eq!(b.colors.len(), 2);
}

#[test]
fn bar_config_color_must_be_a_string() {
    let text = r#"{"id":"bar-0","mode":"dock","position":"bottom","status_command":"i3status","font":"mono","workspace_buttons":true,"binding_mode_indicator":true,"verbose":false,"colors":{"background":0}}"#;
    assert!(matches!(BarConfig::from_str(text), Err(MessageError::Schema)));
}

const TREE: &str = r#"
{
  "id": 1, "name": "root", "type": "root", "border": "none", "current_border_width": 0,
  "layout": "splith", "percent": null, "window": null, "urgent": false, "focused": false,
  "rect": {"x":0,"y":0,"width":1920,"height":1080},
  "window_rect": {"x":0,"y":0,"width":0,"height":0},
  "deco_rect": {"x":0,"y":0,"width":0,"height":0},
  "geometry": {"x":0,"y":0,"width":0,"height":0},
  "focus": [2],
  "nodes": [
    {
      "id": 2, "name": "eDP-1", "type": "output", "border": "normal", "current_border_width": -1,
      "layout": "output", "percent": 1.0, "window": null, "urgent": false, "focused": false,
      "rect": {"x":0,"y":0,"width":1920,"height":1080},
      "window_rect": {"x":0,"y":0,"width":0,"height":0},
      "deco_rect": {"x":0,"y":0,"width":0,"height":0},
      "geometry": {"x":0,"y":0,"width":0,"height":0},
      "focus": [3],
      "nodes": [
        {
          "id": 3, "name": "term", "type": "con", "border": "pixel", "current_border_width": 2,
          "layout": "tabbed", "percent": 0.5, "window": 4194307, "urgent": false, "focused": true,
          "rect": {"x":0,"y":0,"width":960,"height":1080},
          "window_rect": {"x":2,"y":0,"width":956,"height":1078},
          "deco_rect": {"x":0,"y":0,"width":0,"height":0},
          "geometry": {"x":0,"y":0,"width":800,"height":600},
          "window_properties": {"class": "URxvt", "instance": "urxvt", "machine": "host"}
        }
      ],
      "floating_nodes": []
    }
  ]
}"#;

#[test]
fn tree_decodes_every_field() {
    let root = Node::from_str(TREE).unwrap();
    assert_eq!(root.id, 1);
    assert_eq!(root.name.as_deref(), Some("root"));
    assert_eq!(root.nodetype, NodeType::Root);
    assert_eq!(root.border, NodeBorder::NoBorder);
    assert_eq!(root.layout, NodeLayout::SplitH);
    assert!(root.percent.is_none());
    assert!(root.window.is_none());
    assert!(root.window_properties.is_none());
    assert_eq!(root.focus, vec![2]);
    assert_eq!(root.nodes.len(), 1);
    assert!(root.floating_nodes.is_empty());
    let output = &root.nodes[0];
    assert_eq!(output.nodetype, NodeType::Output);
    assert_eq!(output.layout, NodeLayout::Output);
    assert_eq!(output.current_border_width, -1);
    assert_eq!(output.percent.as_ref().and_then(|p| p.as_f64()), Some(1.0));
    let leaf = &output.nodes[0];
    assert_eq!(leaf.id, 3);
    assert_eq!(leaf.border, NodeBorder::Pixel);
    assert_eq!(leaf.layout, NodeLayout::Tabbed);
    assert_eq!(leaf.window, Some(4194307));
    assert_eq!(leaf.rect, (0, 0, 960, 1080));
    assert_eq!(leaf.window_rect, (2, 0, 956, 1078));
    assert_eq!(leaf.geometry, (0, 0, 800, 600));
    assert!(leaf.focused);
    assert!(leaf.focus.is_empty());
    assert_eq!(leaf.window_properties.as_ref().unwrap().len(), 3);
}

#[test]
fn focus_chain_reaches_the_focused_node() {
    let root = Node::from_str(TREE).unwrap();
    let mut node = &root;
    let mut steps = 0;
    while !node.focused {
        let id = node.focus[0];
        node = node.nodes.iter().chain(node.floating_nodes.iter()).find(|n| n.id == id).unwrap();
        steps += 1;
    }
    assert_eq!(node.id, 3);
    assert!(steps <= 3);
}

#[test]
fn nonsense_type_reads_as_unknown() {
    let text = TREE.replacen("\"type\": \"root\"", "\"type\": \"nonsense\"", 1);
    let root = Node::from_str(&text).unwrap();
    assert_eq!(root.nodetype, NodeType::Unknown);
    let text = TREE.replacen("\"layout\": \"splith\"", "\"layout\": \"spiral\"", 1);
    assert_eq!(Node::from_str(&text).unwrap().layout, NodeLayout::Unknown);
    let text = TREE.replacen("\"border\": \"none\"", "\"border\": \"fancy\"", 1);
    assert_eq!(Node::from_str(&text).unwrap().border, NodeBorder::Unknown);
}

#[test]
fn tree_with_broken_child_fails() {
    let text = TREE.replacen("\"id\": 3,", "", 1);
    assert!(matches!(Node::from_str(&text), Err(MessageError::Schema)));
    let text = TREE.replacen("\"percent\": 0.5", "\"percent\": \"half\"", 1);
    assert!(matches!(Node::from_str(&text), Err(MessageError::Schema)));
    let text = TREE.replacen("\"focus\": [2]", "\"focus\": null", 1);
    assert!(matches!(Node::from_str(&text), Err(MessageError::Schema)));
}

#[test]
fn build_tree_on_a_value() {
    let v: serde_json::Value = serde_json::from_str(TREE).unwrap();
    let root = build_tree(&v).unwrap();
    assert_eq!(root.nodes[0].nodes[0].id, 3);
    assert!(build_tree(&serde_json::Value::Null).is_none());
}

#[test]
fn subscription_payloads() {
    assert_eq!(subscription_payload(&[Subscription::Workspace]), "[ \"workspace\" ]");
    assert_eq!(
        subscription_payload(&[Subscription::Window, Subscription::BarConfig, Subscription::Shutdown]),
        "[ \"window\", \"barconfig_update\", \"shutdown\" ]"
    );
    assert_eq!(subscription_payload(&[]), "[  ]");
}

#[test]
fn absent_percent_and_window_read_as_none() {
    let text = TREE
        .replacen("\"percent\": 0.5, \"window\": 4194307, ", "", 1);
    let root = Node::from_str(&text).unwrap();
    let leaf = &root.nodes[0].nodes[0];
    assert!(leaf.percent.is_none());
    assert!(leaf.window.is_none());
    assert!(leaf.focused);
}

#[test]
fn absent_current_workspace_reads_as_none() {
    let text = r#"[{"name":"eDP-1","active":false,"primary":false,"rect":{"x":0,"y":0,"width":1,"height":1}}]"#;
    let o = Outputs::from_str(text).unwrap();
    assert!(o.outputs[0].current_workspace.is_none());
}

#[test]
fn error_descriptions() {
    assert_eq!(MessageError::Schema.description(), "Got a response from i3 that lacks a field it should have");
    assert_eq!(
        MessageError::ReplyTypeMismatch(3).description(),
        "Got a response from i3 to another request"
    );
    let e = i3ipc::EstablishError::SocketError(std::io::Error::new(std::io::ErrorKind::Other, "x"));
    assert_eq!(e.description(), "Found i3's socket path but failed to connect");
}
