use joy2qlc::keys::{send_key, send_space, Key};
use joy2qlc::term_status::{set_axis_line, set_button_line, set_osc_in_line, set_osc_out_line, Status};
use joy2qlc::tray::{find_icon_candidates, join_path, launch_agent_plist, launch_agent_plist_path};

#[test]
fn first_frame_reserves_four_lines() {
    let mut st = Status::new();
    let f = set_axis_line(&mut st, "axis X");
    assert_eq!(f, "\n\n\n\n\x1b[4A\x1b[2K\n\x1b[2K\n\x1b[2K\n\x1b[2Kaxis X\n");
    assert!(st.initialized);
    let g = set_button_line(&mut st, "btn");
    assert_eq!(g, "\x1b[4A\x1b[2K\n\x1b[2K\n\x1b[2Kbtn\n\x1b[2Kaxis X\n");
}

#[test]
fn each_setter_fills_its_own_line() {
    let mut st = Status::new();
    set_osc_in_line(&mut st, "in");
    set_osc_out_line(&mut st, "out");
    let f = set_button_line(&mut st, "b");
    assert_eq!(f, "\x1b[4A\x1b[2Kin\n\x1b[2Kout\n\x1b[2Kb\n\x1b[2K\n");
    assert_eq!((st.osc_in.as_str(), st.osc_out.as_str(), st.button.as_str(), st.axis.as_str()), ("in", "out", "b", ""));
    let again = st.redraw();
    assert_eq!(again, f);
}

#[test]
fn key_names() {
    assert_eq!(send_space(), Key::Space);
    assert_eq!(send_key("Space"), Some(Key::Space));
    assert_eq!(send_key("Enter"), Some(Key::Return));
    assert_eq!(send_key("Return"), Some(Key::Return));
    assert_eq!(send_key("Up"), Some(Key::UpArrow));
    assert_eq!(send_key("Down"), Some(Key::DownArrow));
    assert_eq!(send_key("Left"), Some(Key::LeftArrow));
    assert_eq!(send_key("Right"), Some(Key::RightArrow));
    assert_eq!(send_key("x"), Some(Key::Layout('x')));
    assert_eq!(send_key("é"), None);
    assert_eq!(send_key("space"), None);
    assert_eq!(send_key(""), None);
    assert_eq!(send_key("xy"), None);
}

#[test]
fn icon_candidates_next_to_the_executable_first() {
    assert_eq!(
        find_icon_candidates(Some("/Applications/joy2qlc")),
        vec![
            "/Applications/joy2qlc/assets/toolbar_icon_template.png",
            "/Applications/joy2qlc/assets/toolbar_icon.png",
            "/Applications/joy2qlc/assets/toolbar_icon.svg",
            "assets/toolbar_icon_template.png",
            "assets/toolbar_icon.png",
            "assets/toolbar_icon.svg",
        ]
    );
    assert_eq!(find_icon_candidates(None).len(), 3);
    assert_eq!(join_path("/", "a"), "/a");
    assert_eq!(join_path("", "a"), "a");
}

#[test]
fn launch_agent_location_and_text() {
    assert_eq!(
        launch_agent_plist_path(Some("ana"), Some("/Users/ana")),
        "/Users/ana/Library/LaunchAgents/com.ana.joy2qlc.plist"
    );
    assert_eq!(
        launch_agent_plist_path(None, None),
        "/Users/Shared/Library/LaunchAgents/com.joy2qlc.joy2qlc.plist"
    );
    let p = launch_agent_plist("/usr/local/bin/joy2qlc");
    assert!(p.starts_with("<?xml version=\"1.0\" encoding=\"UTF-8\"?>\n"));
    assert!(p.contains("<string>/usr/local/bin/joy2qlc</string>"));
    assert!(p.ends_with("<false/>\n</dict>\n</plist>"));
}
