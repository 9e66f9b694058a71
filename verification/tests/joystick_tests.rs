use joy2qlc::config::{Action, Config, InitSpec, InitValue, InputSpec, Mapping, ReleaseValue};
use joy2qlc::joystick::{init_log_line, init_status_line, release_message, InitBurst, Joystick, ReleaseSend};
use joy2qlc::osc::OscArg;

fn axis_input(code: &str, gate: Option<&str>, release: Option<ReleaseValue>) -> InputSpec {
    InputSpec {
        typ: "axis".to_string(),
        code: code.to_string(),
        while_button: gate.map(|g| g.to_string()),
        release_value: release,
        input_range: None,
        output_range: None,
    }
}

fn axis_cc(channel: Option<u8>, controller: u8) -> Action {
    Action::ControlChangeFromAxis { channel, controller, invert: None, range: None, count: None, delay_ms: None }
}

fn init(typ: &str, controller: Option<u8>, value: Option<InitValue>, count: Option<u8>) -> InitSpec {
    InitSpec { typ: typ.to_string(), channel: Some(3), controller, value, count, delay_ms: Some(50) }
}

fn rig() -> Config {
    Config {
        mappings: vec![
            Mapping {
                input: InputSpec {
                    typ: "button".to_string(),
                    code: "South".to_string(),
                    while_button: None,
                    release_value: None,
                    input_range: None,
                    output_range: None,
                },
                action: Action::NoteOn { channel: None, note: 60, velocity: None, count: None, delay_ms: None },
                init: None,
            },
            Mapping {
                input: axis_input("LeftStickX", Some("South"), Some(ReleaseValue::Int(64))),
                action: axis_cc(Some(1), 10),
                init: Some(init("control_change", Some(10), Some(InitValue::IntList(vec![1, 2, 3])), Some(2))),
            },
            Mapping {
                input: axis_input("LeftStickX", Some("East"), Some(ReleaseValue::SendNil)),
                action: axis_cc(None, 11),
                init: Some(init("control_change_from_axis", Some(11), Some(InitValue::Int(7)), None)),
            },
            Mapping {
                input: axis_input("LeftStickX", None, None),
                action: axis_cc(None, 12),
                init: None,
            },
            Mapping {
                input: axis_input("LeftStickY", Some("South"), None),
                action: axis_cc(None, 13),
                init: Some(init("note_on", Some(13), Some(InitValue::Int(1)), None)),
            },
            Mapping {
                input: axis_input("RightStickX", Some("South"), Some(ReleaseValue::Float(0.5f32.to_bits()))),
                action: axis_cc(None, 14),
                init: Some(init("control_change", None, Some(InitValue::Int(1)), None)),
            },
            Mapping {
                input: axis_input("RightStickY", Some("South"), Some(ReleaseValue::Int(-20))),
                action: axis_cc(Some(2), 15),
                init: Some(init("control_change", Some(15), Some(InitValue::IntList(vec![])), None)),
            },
        ],
    }
}

fn controllers(ms: &[Mapping]) -> Vec<u8> {
    ms.iter()
        .filter_map(|m| match &m.action {
            Action::ControlChangeFromAxis { controller, .. } => Some(*controller),
            _ => None,
        })
        .collect()
}

#[test]
fn press_and_release_track_held_buttons() {
    let mut j = Joystick::new();
    assert!(!j.is_pressed("South"));
    j.press("South");
    j.press("South");
    j.press("East");
    assert!(j.is_pressed("South"));
    assert!(j.is_pressed("East"));
    j.release("South");
    assert!(!j.is_pressed("South"));
    assert!(j.is_pressed("East"));
    j.release("North");
    assert!(j.is_pressed("East"));
}

#[test]
fn gating_follows_held_buttons() {
    let cfg = rig();
    let mut j = Joystick::new();
    assert_eq!(controllers(&j.active_axis_mappings(&cfg, "LeftStickX")), vec![12]);
    j.on_button_pressed(&cfg, "South");
    assert_eq!(controllers(&j.active_axis_mappings(&cfg, "LeftStickX")), vec![10, 12]);
    j.on_button_pressed(&cfg, "East");
    assert_eq!(controllers(&j.active_axis_mappings(&cfg, "LeftStickX")), vec![10, 11, 12]);
    j.on_button_released(&cfg, "South");
    assert_eq!(controllers(&j.active_axis_mappings(&cfg, "LeftStickX")), vec![11, 12]);
    assert!(j.active_axis_mappings(&cfg, "Unknown").is_empty());
}

#[test]
fn press_gives_the_button_action_and_init_bursts() {
    let cfg = rig();
    let mut j = Joystick::new();
    let out = j.on_button_pressed(&cfg, "South");
    assert!(j.is_pressed("South"));
    assert!(matches!(out.action, Some(Action::NoteOn { note: 60, .. })));
    // LeftStickX (control_change, count 2): first two values; LeftStickY has a
    // non-control kind, RightStickX no controller, RightStickY no values.
    assert_eq!(out.init_bursts.len(), 1);
    let b = &out.init_bursts[0];
    assert_eq!(b.axis, "LeftStickX");
    assert_eq!((b.channel, b.controller, b.delay_ms), (3, 10, 50));
    assert_eq!(b.values, vec![1, 2]);
}

#[test]
fn press_of_another_gate_and_unmapped_buttons() {
    let cfg = rig();
    let mut j = Joystick::new();
    let out = j.on_button_pressed(&cfg, "East");
    assert!(out.action.is_none());
    assert_eq!(out.init_bursts.len(), 1);
    assert_eq!(out.init_bursts[0].values, vec![7]);
    assert_eq!(out.init_bursts[0].controller, 11);
    let none = j.on_button_pressed(&cfg, "North");
    assert!(none.action.is_none());
    assert!(none.init_bursts.is_empty());
}

#[test]
fn release_sends_the_configured_values() {
    let cfg = rig();
    let mut j = Joystick::new();
    j.on_button_pressed(&cfg, "South");
    let sends = j.on_button_released(&cfg, "South");
    assert!(!j.is_pressed("South"));
    let summary: Vec<(String, u8, u8, ReleaseValue)> =
        sends.iter().map(|s| (s.axis.clone(), s.channel, s.controller, s.value)).collect();
    assert_eq!(
        summary,
        vec![
            ("LeftStickX".to_string(), 1, 10, ReleaseValue::Int(64)),
            ("LeftStickY".to_string(), 0, 13, ReleaseValue::Int(0)),
            ("RightStickX".to_string(), 0, 14, ReleaseValue::Float(0.5f32.to_bits())),
            ("RightStickY".to_string(), 2, 15, ReleaseValue::Int(-20)),
        ]
    );
    let east = j.on_button_released(&cfg, "East");
    assert_eq!(east.len(), 1);
    assert_eq!(east[0].value, ReleaseValue::SendNil);
}

#[test]
fn release_messages() {
    let int = ReleaseSend { axis: "X".to_string(), channel: 0, controller: 10, value: ReleaseValue::Int(64) };
    let m = release_message(&int);
    assert_eq!((m.addr.as_str(), m.args), ("/cc/10", vec![OscArg::Int(64)]));
    let neg = ReleaseSend { axis: "X".to_string(), channel: 0, controller: 10, value: ReleaseValue::Int(-1) };
    assert_eq!(release_message(&neg).args, vec![OscArg::IntAsFloat(-1)]);
    let fl = ReleaseSend { axis: "X".to_string(), channel: 0, controller: 3, value: ReleaseValue::Float(7) };
    assert_eq!(release_message(&fl).args, vec![OscArg::Float(7)]);
    let nil = ReleaseSend { axis: "X".to_string(), channel: 0, controller: 3, value: ReleaseValue::SendNil };
    let n = release_message(&nil);
    assert_eq!((n.addr.as_str(), n.args), ("/cc/3", vec![OscArg::Nil]));
}

#[test]
fn releasing_a_fresh_press_restores_the_held_set() {
    let cfg = rig();
    let mut j = Joystick::new();
    j.on_button_pressed(&cfg, "East");
    j.on_button_pressed(&cfg, "South");
    j.on_button_released(&cfg, "South");
    assert!(j.is_pressed("East"));
    assert!(!j.is_pressed("South"));
}

#[test]
fn release_without_a_release_value_sends_zero() {
    let cfg = Config {
        mappings: vec![Mapping {
            input: axis_input("LeftStickX", Some("South"), None),
            action: axis_cc(None, 7),
            init: None,
        }],
    };
    let mut j = Joystick::new();
    j.on_button_pressed(&cfg, "South");
    let sends = j.on_button_released(&cfg, "South");
    assert_eq!(sends.len(), 1);
    assert_eq!((sends[0].channel, sends[0].controller, sends[0].value), (0, 7, ReleaseValue::Int(0)));
    let m = release_message(&sends[0]);
    assert_eq!((m.addr.as_str(), m.args), ("/cc/7", vec![OscArg::Int(0)]));
    assert!(j.active_axis_mappings(&cfg, "LeftStickX").is_empty());
}

#[test]
fn init_lines() {
    let b = InitBurst { axis: "LeftStickX".to_string(), channel: 3, controller: 10, values: vec![1, -2], delay_ms: 0 };
    assert_eq!(init_log_line(&b, -2), "InitControlChange axis=LeftStickX ch=3 ctrl=10 val=-2");
    assert_eq!(init_log_line(&b, 127), "InitControlChange axis=LeftStickX ch=3 ctrl=10 val=127");
    assert_eq!(init_status_line(10, 64), "Init: sent /cc/10 64");
    assert_eq!(init_status_line(0, -1), "Init: sent /cc/0 -1");
}
