use i3ipc::event::inner::{BindingChange, InputType, OutputChange, WindowChange, WorkspaceChange};
use i3ipc::event::{
    build_event, BarConfigEventInfo, BindingEventInfo, Event, ModeEventInfo, OutputEventInfo,
    ShutdownEventInfo, WindowEventInfo, WorkspaceEventInfo,
};
use i3ipc::event_category;
use i3ipc::reply::{ColorableBarPart, NodeType, WindowProperty};
use i3ipc::MessageError;

#[test]
fn from_str_workspace() {
    let json_str = r##"
    {
        "change": "focus",
        "current": {
            "id": 28489712,
            "name": "something",
            "type": "workspace",
            "border": "normal",
            "current_border_width": 2,
            "layout": "splith",
            "orientation": "none",
            "percent": 30.0,
            "rect": { "x": 1600, "y": 0, "width": 1600, "height": 1200 },
            "window_rect": { "x": 2, "y": 0, "width": 632, "height": 366 },
            "deco_rect": { "x": 1, "y": 1, "width": 631, "height": 365 },
            "geometry": { "x": 6, "y": 6, "width": 10, "height": 10 },
            "window": 1,
            "urgent": false,
            "focused": true
        },
        "old": null
    }"##;
    WorkspaceEventInfo::from_str(json_str).unwrap();
}

#[test]
fn from_str_output() {
    let json_str = r##"{ "change": "unspecified" }"##;
    OutputEventInfo::from_str(json_str).unwrap();
}

#[test]
fn from_str_mode() {
    let json_str = r##"{ "change": "default" }"##;
    ModeEventInfo::from_str(json_str).unwrap();
}

#[test]
fn from_str_window() {
    let json_str = r##"
    {
        "change": "new",
        "container": {
            "id": 28489712,
            "name": "something",
            "type": "workspace",
            "border": "normal",
            "current_border_width": 2,
            "layout": "splith",
            "orientation": "none",
            "percent": 30.0,
            "rect": { "x": 1600, "y": 0, "width": 1600, "height": 1200 },
            "window_rect": { "x": 2, "y": 0, "width": 632, "height": 366 },
            "deco_rect": { "x": 1, "y": 1, "width": 631, "height": 365 },
            "geometry": { "x": 6, "y": 6, "width": 10, "height": 10 },
            "window": 1,
            "window_properties": { "class": "Firefox", "instance": "Navigator", "window_role": "browser", "title": "github.com - Mozilla Firefox", "transient_for": null },
            "urgent": false,
            "focused": true
        }
    }"##;
    WindowEventInfo::from_str(json_str).unwrap();
}

#[test]
fn from_str_barconfig() {
    let json_str = r##"
    {
        "id": "bar-bxuqzf",
        "mode": "dock",
        "position": "bottom",
        "status_command": "i3status",
        "font": "-misc-fixed-medium-r-normal--13-120-75-75-C-70-iso10646-1",
        "workspace_buttons": true,
        "binding_mode_indicator": true,
        "verbose": false,
        "colors": {
                "background": "#c0c0c0",
                "statusline": "#00ff00",
                "focused_workspace_text": "#ffffff",
                "focused_workspace_bg": "#000000"
        }
    }"##;
    BarConfigEventInfo::from_str(json_str).unwrap();
}

#[test]
fn from_str_binding_event() {
    let json_str = r##"
    {
        "change": "run",
        "binding": {
            "command": "nop",
            "event_state_mask": [
                "shift",
                "ctrl"
            ],
            "input_code": 0,
            "symbol": "t",
            "input_type": "keyboard"
        }
    }"##;
    BindingEventInfo::from_str(json_str).unwrap();
}

const WINDOW_EVENT: &str = r##"
{
    "change": "focus",
    "container": {
        "id": 7,
        "name": "term",
        "type": "con",
        "border": "pixel",
        "current_border_width": 1,
        "layout": "splitv",
        "percent": null,
        "rect": { "x": 0, "y": 0, "width": 10, "height": 20 },
        "window_rect": { "x": 0, "y": 0, "width": 10, "height": 20 },
        "deco_rect": { "x": 0, "y": 0, "width": 0, "height": 0 },
        "geometry": { "x": 0, "y": 0, "width": 10, "height": 20 },
        "window": null,
        "window_properties": { "class": "URxvt", "title": "shell", "unknown_key": "dropped" },
        "urgent": true,
        "focused": true
    }
}"##;

#[test]
fn window_event_fields() {
    let e = WindowEventInfo::from_str(WINDOW_EVENT).unwrap();
    assert_eq!(e.change, WindowChange::Focus);
    assert_eq!(e.container.id, 7);
    assert_eq!(e.container.nodetype, NodeType::Con);
    assert!(e.container.percent.is_none());
    assert!(e.container.window.is_none());
    let props = e.container.window_properties.as_ref().unwrap();
    assert_eq!(props.len(), 2);
    assert_eq!(e.container.window_property(WindowProperty::Class).unwrap(), "URxvt");
    assert_eq!(e.container.window_property(WindowProperty::Title).unwrap(), "shell");
    assert!(e.container.window_property(WindowProperty::Instance).is_none());
}

#[test]
fn window_property_null_reads_empty() {
    let text = WINDOW_EVENT.replace("\"title\": \"shell\"", "\"title\": null");
    let e = WindowEventInfo::from_str(&text).unwrap();
    assert_eq!(e.container.window_property(WindowProperty::Title).unwrap(), "");
}

#[test]
fn event_category_strips_event_bit() {
    assert_eq!(event_category(0x8000_0003), 3);
    assert_eq!(event_category(0x8000_0000), 0);
    assert_eq!(event_category(5), 5);
    assert_eq!(event_category(0xffff_ffff), 0x7fff_ffff);
}

#[test]
fn window_event_tag_dispatches_to_window_event() {
    let category = event_category(0x8000_0003);
    match build_event(category, WINDOW_EVENT).unwrap() {
        Event::WindowEvent(w) => assert_eq!(w.container.id, 7),
        other => panic!("expected a window event, got {:?}", other),
    }
}

#[test]
fn build_event_each_category() {
    assert!(matches!(
        build_event(0, r#"{"change":"init","current":null}"#).unwrap(),
        Event::WorkspaceEvent(WorkspaceEventInfo { change: WorkspaceChange::Init, current: None, old: None })
    ));
    assert!(matches!(
        build_event(1, r#"{"change":"unspecified"}"#).unwrap(),
        Event::OutputEvent(OutputEventInfo { change: OutputChange::Unspecified })
    ));
    match build_event(2, r#"{"change":"resize"}"#).unwrap() {
        Event::ModeEvent(m) => assert_eq!(m.change, "resize"),
        other => panic!("unexpected {:?}", other),
    }
    match build_event(5, r#"{"change":"run","binding":{"command":"nop","event_state_mask":[],"input_code":3,"symbol":null,"input_type":"mouse"}}"#).unwrap() {
        Event::BindingEvent(b) => {
            assert_eq!(b.change, BindingChange::Run);
            assert_eq!(b.binding.input_code, 3);
            assert!(b.binding.symbol.is_none());
            assert_eq!(b.binding.input_type, InputType::Mouse);
        }
        other => panic!("unexpected {:?}", other),
    }
    match build_event(6, r#"{"change":"restart"}"#).unwrap() {
        Event::ShutdownEvent(s) => assert_eq!(s.change, i3ipc::event::inner::ShutdownChange::Restart),
        other => panic!("unexpected {:?}", other),
    }
}

#[test]
fn unknown_changes_read_as_unknown() {
    let w = WorkspaceEventInfo::from_str(r#"{"change":"teleport","current":null}"#).unwrap();
    assert_eq!(w.change, WorkspaceChange::Unknown);
    let o = OutputEventInfo::from_str(r#"{"change":"melted"}"#).unwrap();
    assert_eq!(o.change, OutputChange::Unknown);
    let s = ShutdownEventInfo::from_str(r#"{"change":"later"}"#).unwrap();
    assert_eq!(s.change, i3ipc::event::inner::ShutdownChange::Unknown);
    let b = BindingEventInfo::from_str(r#"{"change":"walk","binding":{"command":"nop","event_state_mask":["mod4"],"input_code":0,"symbol":"x","input_type":"pedal"}}"#).unwrap();
    assert_eq!(b.change, BindingChange::Unknown);
    assert_eq!(b.binding.input_type, InputType::Unknown);
    assert_eq!(b.binding.event_state_mask, vec!["mod4".to_string()]);
}

#[test]
fn event_with_bad_json_is_a_parse_error() {
    assert!(matches!(OutputEventInfo::from_str("{ change"), Err(MessageError::JsonCouldntParse(_))));
}

#[test]
fn event_missing_field_is_a_schema_error() {
    assert!(matches!(OutputEventInfo::from_str("{}"), Err(MessageError::Schema)));
    assert!(matches!(WindowEventInfo::from_str(r#"{"change":"new"}"#), Err(MessageError::Schema)));
    assert!(matches!(build_event(4, r#"{"id":"bar"}"#), Err(MessageError::Schema)));
}

#[test]
fn bar_config_event_keeps_unknown_color() {
    let e = BarConfigEventInfo::from_str(r##"{"id":"b","mode":"dock","position":"top","status_command":"x","font":"f","workspace_buttons":true,"binding_mode_indicator":false,"verbose":false,"colors":{"totally_new_color":"#abcdef"}}"##).unwrap();
    assert_eq!(e.bar_config.color(ColorableBarPart::Unknown).unwrap(), "#abcdef");
}
