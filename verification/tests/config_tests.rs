use joy2qlc::keys::Key;
use joy2qlc::config::{
    actions_log_dir, actions_log_path, action_range_from_text, execute_action, nullable_i32_from_i64, nullable_i32_from_u64,
    nullable_i32_from_text, plan_axis_mapping, release_value_from_i64, release_value_from_text,
    release_value_from_u64, Action, ActionRange, AxisPlan, Config, Dispatch, InitSpec, InitValue,
    InputSpec, Mapping, OutputRange, ReleaseValue,
};
use joy2qlc::osc::OscArg;

fn input(typ: &str, code: &str) -> InputSpec {
    InputSpec {
        typ: typ.to_string(),
        code: code.to_string(),
        while_button: None,
        release_value: None,
        input_range: None,
        output_range: None,
    }
}

fn note_on(note: u8) -> Action {
    Action::NoteOn { channel: None, note, velocity: None, count: None, delay_ms: None }
}

fn axis_action(controller: u8, range: Option<ActionRange>) -> Action {
    Action::ControlChangeFromAxis { channel: None, controller, invert: None, range, count: None, delay_ms: None }
}

fn mapping(input: InputSpec, action: Action) -> Mapping {
    Mapping { input, action, init: None }
}

fn sample() -> Config {
    Config {
        mappings: vec![
            mapping(input("button", "South"), note_on(60)),
            mapping(input("axis", "LeftStickX"), axis_action(1, None)),
            mapping(input("button", "South"), note_on(61)),
            mapping(input("axis", "LeftStickY"), axis_action(2, None)),
            mapping(input("axis", "LeftStickX"), axis_action(3, None)),
        ],
    }
}

fn note_of(a: &Option<Action>) -> Option<u8> {
    match a {
        Some(Action::NoteOn { note, .. }) => Some(*note),
        _ => None,
    }
}

fn controller_of(a: &Action) -> Option<u8> {
    match a {
        Action::ControlChangeFromAxis { controller, .. } => Some(*controller),
        _ => None,
    }
}

#[test]
fn button_lookup_takes_the_first_mapping() {
    let cfg = sample();
    assert_eq!(note_of(&cfg.find_action_for_button("South")), Some(60));
    assert!(cfg.find_action_for_button("North").is_none());
    // an axis name is not a button
    assert!(cfg.find_action_for_button("LeftStickX").is_none());
}

#[test]
fn axis_lookups() {
    let cfg = sample();
    let a = cfg.find_action_for_axis("LeftStickX").unwrap();
    assert_eq!(controller_of(&a), Some(1));
    let m = cfg.find_mapping_for_axis("LeftStickY").unwrap();
    assert_eq!(controller_of(&m.action), Some(2));
    assert_eq!(m.input.code, "LeftStickY");
    assert!(cfg.find_mapping_for_axis("South").is_none());
    assert!(cfg.find_action_for_axis("RightTrigger").is_none());
}

#[test]
fn all_mappings_of_an_axis_in_file_order() {
    let cfg = sample();
    let all = cfg.find_mappings_for_axis("LeftStickX");
    let ctrls: Vec<u8> = all.iter().filter_map(|m| controller_of(&m.action)).collect();
    assert_eq!(ctrls, vec![1, 3]);
    assert!(cfg.find_mappings_for_axis("Nothing").is_empty());
    // the first of all mappings is the one the single lookup finds
    let first = cfg.find_mapping_for_axis("LeftStickX").unwrap();
    assert_eq!(controller_of(&first.action), controller_of(&all[0].action));
}

#[test]
fn config_copies_keep_every_field() {
    let mut cfg = sample();
    cfg.mappings[0].input.while_button = Some("East".to_string());
    cfg.mappings[0].input.input_range = Some(vec![1.0f32.to_bits(), (-1.0f32).to_bits()]);
    cfg.mappings[0].init = Some(InitSpec {
        typ: "control_change".to_string(),
        channel: Some(2),
        controller: Some(9),
        value: Some(InitValue::IntList(vec![1, 2, 3])),
        count: Some(2),
        delay_ms: Some(5),
    });
    let copy = cfg.clone();
    assert_eq!(copy.mappings.len(), 5);
    assert_eq!(copy.mappings[0].input.while_button.as_deref(), Some("East"));
    assert_eq!(copy.mappings[0].input.input_range, Some(vec![1.0f32.to_bits(), (-1.0f32).to_bits()]));
    let init = copy.mappings[0].init.as_ref().unwrap();
    assert_eq!(init.typ, "control_change");
    assert!(matches!(&init.value, Some(InitValue::IntList(v)) if v == &vec![1, 2, 3]));
}

#[test]
fn note_on_defaults_and_log_line() {
    match execute_action(&note_on(60)).unwrap() {
        Dispatch::Once { message, log_line } => {
            assert_eq!(message.addr, "/note/60/on");
            assert_eq!(message.args, vec![OscArg::Int(127)]);
            assert_eq!(log_line, "NoteOn ch=0 note=60 vel=127");
        }
        other => panic!("unexpected {:?}", other),
    }
}

#[test]
fn note_off_defaults_to_velocity_zero() {
    let a = Action::NoteOff { channel: Some(4), note: 62, velocity: None, count: Some(1), delay_ms: None };
    match execute_action(&a).unwrap() {
        Dispatch::Once { message, log_line } => {
            assert_eq!(message.addr, "/note/62/off");
            assert_eq!(message.args, vec![OscArg::Int(0)]);
            assert_eq!(log_line, "NoteOff ch=4 note=62 vel=0");
        }
        other => panic!("unexpected {:?}", other),
    }
}

#[test]
fn control_and_program_changes() {
    let cc = Action::ControlChange { channel: None, controller: 7, value: 99, count: None, delay_ms: None };
    match execute_action(&cc).unwrap() {
        Dispatch::Once { message, log_line } => {
            assert_eq!(message.addr, "/cc/7");
            assert_eq!(message.args, vec![OscArg::Int(99)]);
            assert_eq!(log_line, "ControlChange ch=0 ctrl=7 val=99");
        }
        other => panic!("unexpected {:?}", other),
    }
    let pc = Action::ProgramChange { channel: Some(1), program: 12, count: Some(0), delay_ms: Some(3) };
    match execute_action(&pc).unwrap() {
        Dispatch::Once { message, log_line } => {
            assert_eq!(message.addr, "/program/12");
            assert_eq!(message.args, vec![OscArg::Int(12)]);
            assert_eq!(log_line, "ProgramChange ch=1 prog=12");
        }
        other => panic!("unexpected {:?}", other),
    }
}

#[test]
fn counts_above_one_repeat_in_the_background() {
    let a = Action::NoteOn { channel: None, note: 1, velocity: Some(5), count: Some(3), delay_ms: Some(20) };
    match execute_action(&a).unwrap() {
        Dispatch::Repeat { message, times, delay_ms } => {
            assert_eq!(message.addr, "/note/1/on");
            assert_eq!(message.args, vec![OscArg::Int(5)]);
            assert_eq!(times, 3);
            assert_eq!(delay_ms, 20);
        }
        other => panic!("unexpected {:?}", other),
    }
    let b = Action::ControlChange { channel: None, controller: 1, value: 2, count: Some(2), delay_ms: None };
    match execute_action(&b).unwrap() {
        Dispatch::Repeat { times, delay_ms, .. } => {
            assert_eq!(times, 2);
            assert_eq!(delay_ms, 0);
        }
        other => panic!("unexpected {:?}", other),
    }
}

#[test]
fn axis_actions_do_nothing_without_an_axis_value() {
    assert!(execute_action(&axis_action(1, None)).is_none());
}

#[test]
fn release_value_text_forms() {
    assert_eq!(release_value_from_text("null").unwrap(), None);
    assert_eq!(release_value_from_text("NULL").unwrap(), None);
    assert_eq!(release_value_from_text("").unwrap(), None);
    assert_eq!(release_value_from_text("None").unwrap(), Some(ReleaseValue::SendNil));
    assert_eq!(release_value_from_text("nOnE").unwrap(), Some(ReleaseValue::SendNil));
    assert_eq!(release_value_from_text("64").unwrap(), Some(ReleaseValue::Int(64)));
    assert_eq!(release_value_from_text("-3").unwrap(), Some(ReleaseValue::Int(-3)));
    assert_eq!(release_value_from_text("center").unwrap_err(), "invalid string for release_value");
    assert_eq!(release_value_from_text("1.5").unwrap_err(), "invalid string for release_value");
}

#[test]
fn release_value_integers_keep_the_low_32_bits() {
    assert_eq!(release_value_from_i64(64), ReleaseValue::Int(64));
    assert_eq!(release_value_from_i64(-1), ReleaseValue::Int(-1));
    assert_eq!(release_value_from_i64(4294967297), ReleaseValue::Int(1));
    assert_eq!(release_value_from_u64(4294967295), ReleaseValue::Int(-1));
    assert_eq!(release_value_from_u64(127), ReleaseValue::Int(127));
}

#[test]
fn action_range_text_forms() {
    assert!(matches!(action_range_from_text("null").unwrap(), Some(ActionRange::Passthrough)));
    assert!(matches!(action_range_from_text("Null").unwrap(), Some(ActionRange::Passthrough)));
    assert!(matches!(action_range_from_text("").unwrap(), Some(ActionRange::Passthrough)));
    assert_eq!(action_range_from_text("0,127").unwrap_err(), "invalid string for action.range; expected 'null'");
}

#[test]
fn nullable_integer_forms() {
    assert_eq!(nullable_i32_from_text("null").unwrap(), None);
    assert_eq!(nullable_i32_from_text("").unwrap(), None);
    assert_eq!(nullable_i32_from_text("12").unwrap(), Some(12));
    assert_eq!(nullable_i32_from_text("x").unwrap_err(), "invalid string for release_value");
    assert_eq!(nullable_i32_from_i64(-9), Some(-9));
    assert_eq!(nullable_i32_from_i64(1 << 32), Some(0));
    assert_eq!(nullable_i32_from_u64(5), Some(5));
    assert_eq!(nullable_i32_from_u64(u64::MAX), Some(-1));
}

#[test]
fn actions_log_location() {
    assert_eq!(actions_log_dir(Some("/Users/me")), "/Users/me/Library/Logs/joy2qlc");
    assert_eq!(actions_log_path(Some("/Users/me")), "/Users/me/Library/Logs/joy2qlc/actions.log");
    assert_eq!(actions_log_path(None), "/tmp/Library/Logs/joy2qlc/actions.log");
}

#[test]
fn axis_plan_passthrough() {
    let mut m = mapping(input("axis", "LeftStickX"), Action::ControlChangeFromAxis {
        channel: Some(2),
        controller: 9,
        invert: Some(true),
        range: Some(ActionRange::Passthrough),
        count: None,
        delay_ms: None,
    });
    m.input.output_range = Some(vec![0, 127]);
    match plan_axis_mapping(&m).unwrap() {
        AxisPlan::Passthrough { channel, controller, invert } => {
            assert_eq!((channel, controller, invert), (2, 9, true));
        }
        other => panic!("unexpected {:?}", other),
    }
}

#[test]
fn axis_plan_prefers_the_action_range() {
    let mut m = mapping(input("axis", "X"), axis_action(4, Some(ActionRange::Range(vec![0.0f32.to_bits(), 1.0f32.to_bits()]))));
    m.input.output_range = Some(vec![0, 127]);
    m.input.input_range = Some(vec![1.0f32.to_bits(), (-1.0f32).to_bits()]);
    match plan_axis_mapping(&m).unwrap() {
        AxisPlan::Scaled { channel, controller, invert, input_range, output_range } => {
            assert_eq!((channel, controller, invert), (0, 4, false));
            assert_eq!(input_range, Some((1.0f32.to_bits(), (-1.0f32).to_bits())));
            assert_eq!(output_range, OutputRange::FromAction(0.0f32.to_bits(), 1.0f32.to_bits()));
        }
        other => panic!("unexpected {:?}", other),
    }
}

#[test]
fn axis_plan_falls_back_to_the_output_range_then_the_default() {
    let mut m = mapping(input("axis", "X"), axis_action(4, Some(ActionRange::Range(vec![0.0f32.to_bits()]))));
    m.input.output_range = Some(vec![-10, 10]);
    m.input.input_range = Some(vec![1.0f32.to_bits()]);
    match plan_axis_mapping(&m).unwrap() {
        AxisPlan::Scaled { input_range, output_range, .. } => {
            assert_eq!(input_range, None);
            assert_eq!(output_range, OutputRange::FromInput(-10, 10));
        }
        other => panic!("unexpected {:?}", other),
    }
    m.input.output_range = Some(vec![1, 2, 3]);
    match plan_axis_mapping(&m).unwrap() {
        AxisPlan::Scaled { output_range, .. } => assert_eq!(output_range, OutputRange::Default),
        other => panic!("unexpected {:?}", other),
    }
    assert!(plan_axis_mapping(&mapping(input("axis", "X"), note_on(1))).is_none());
}

#[test]
fn zero_release_values_are_found_on_axes_only() {
    let mut zero_axis = input("axis", "LeftStickX");
    zero_axis.release_value = Some(ReleaseValue::Int(0));
    let mut centre_axis = input("axis", "LeftStickY");
    centre_axis.release_value = Some(ReleaseValue::Int(64));
    let mut zero_button = input("button", "South");
    zero_button.release_value = Some(ReleaseValue::Int(0));
    let mut zero_float = input("axis", "RightStickX");
    zero_float.release_value = Some(ReleaseValue::Float(0));
    let mut zero_again = input("axis", "RightStickY");
    zero_again.release_value = Some(ReleaseValue::Int(0));
    let cfg = Config {
        mappings: vec![
            mapping(zero_axis, axis_action(1, None)),
            mapping(centre_axis, axis_action(2, None)),
            mapping(zero_button, note_on(60)),
            mapping(zero_float, axis_action(3, None)),
            mapping(zero_again, axis_action(4, None)),
        ],
    };
    assert_eq!(cfg.axes_releasing_zero(), vec!["LeftStickX".to_string(), "RightStickY".to_string()]);
    assert!(sample().axes_releasing_zero().is_empty());
}

#[test]
fn key_action_selects_the_key() {
    let space = Action::Key { key: "Space".to_string() };
    assert!(matches!(execute_action(&space), Some(Dispatch::PressKey { key: Some(Key::Space) })));
    let enter = Action::Key { key: "Enter".to_string() };
    assert!(matches!(execute_action(&enter), Some(Dispatch::PressKey { key: Some(Key::Return) })));
    let unknown = Action::Key { key: "Hyper".to_string() };
    assert!(matches!(execute_action(&unknown), Some(Dispatch::PressKey { key: None })));
}

#[test]
fn rest_action_request_and_defaults() {
    let a = Action::Rest {
        method: Some("POST".to_string()),
        url: "http://localhost:8080/event".to_string(),
        body: Some("{ \"event\": \"east_pressed\" }".to_string()),
    };
    match execute_action(&a).unwrap() {
        Dispatch::Http { method, url, body } => {
            assert_eq!(method, "POST");
            assert_eq!(url, "http://localhost:8080/event");
            assert_eq!(body, "{ \"event\": \"east_pressed\" }");
        }
        other => panic!("unexpected {:?}", other),
    }
    let bare = Action::Rest { method: None, url: "http://h/x".to_string(), body: None };
    match execute_action(&bare).unwrap() {
        Dispatch::Http { method, url, body } => {
            assert_eq!((method.as_str(), url.as_str(), body.as_str()), ("POST", "http://h/x", ""));
        }
        other => panic!("unexpected {:?}", other),
    }
    let get = Action::Rest { method: Some("GET".to_string()), url: "http://h/y".to_string(), body: None };
    assert!(matches!(execute_action(&get), Some(Dispatch::Http { method, .. }) if method == "GET"));
}

#[test]
fn exec_action_command_and_arguments() {
    let a = Action::Exec { cmd: "/usr/local/bin/qlc_trigger.sh".to_string(), args: Some(vec!["scene1".to_string()]) };
    match execute_action(&a).unwrap() {
        Dispatch::Run { cmd, args } => {
            assert_eq!(cmd, "/usr/local/bin/qlc_trigger.sh");
            assert_eq!(args, vec!["scene1".to_string()]);
        }
        other => panic!("unexpected {:?}", other),
    }
    let bare = Action::Exec { cmd: "true".to_string(), args: None };
    assert!(matches!(execute_action(&bare), Some(Dispatch::Run { args, .. }) if args.is_empty()));
    let copy = a.clone();
    assert!(matches!(copy, Action::Exec { ref cmd, args: Some(ref v) } if cmd == "/usr/local/bin/qlc_trigger.sh" && v == &vec!["scene1".to_string()]));
    let r = Action::Rest { method: None, url: "u".to_string(), body: Some("b".to_string()) }.clone();
    assert!(matches!(r, Action::Rest { method: None, ref url, body: Some(ref b) } if url == "u" && b == "b"));
}
