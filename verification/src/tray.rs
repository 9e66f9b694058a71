//! The menu-bar companion: where its icon is looked for, and the LaunchAgent
//! that opens the bridge at login. Drawing the menu, checking files and
//! writing the agent belong to the program around the library.
use vstd::prelude::*;
use vstd::string::StringExecFns;
use crate::config::{opt_view, or_else};
use crate::text::string_push;

verus! {

/// `Path::join` of a relative path: the parts with a `/` between them unless
/// the first is empty or already ends with one.
pub open spec fn path_join(base: Seq<char>, rel: Seq<char>) -> Seq<char> {
    if base.len() == 0 {
        rel
    } else if base.last() == '/' {
        base + rel
    } else {
        base + seq!['/'] + rel
    }
}

/// Joins a relative path onto `base`.
pub fn join_path(base: &str, rel: &str) -> (r: String)
    ensures
        r@ == path_join(base@, rel@),
{
    let mut r = String::from_str(base);
    let chars = crate::text::chars_of(base);
    let n = chars.len();
    if n > 0 && chars[n - 1] != '/' {
        string_push(&mut r, '/');
    }
    r.append(rel);
    proof {
        if base@.len() > 0 {
            assert(chars@.last() == base@.last());
        }
    }
    assert(r@ =~= path_join(base@, rel@));
    r
}

/// The icon files looked for, in order: the three variants next to the
/// executable (when its directory is known), then the same three relative
/// to the working directory.
pub open spec fn icon_candidates(exe_dir: Option<Seq<char>>) -> Seq<Seq<char>> {
    let names = seq![
        "assets/toolbar_icon_template.png"@,
        "assets/toolbar_icon.png"@,
        "assets/toolbar_icon.svg"@,
    ];
    match exe_dir {
        Some(d) => names.map_values(|n: Seq<char>| path_join(d, n)) + names,
        None => names,
    }
}

/// The icon files to look for, given the directory of the executable.
pub fn find_icon_candidates(exe_dir: Option<&str>) -> (r: Vec<String>)
    ensures
        r@.map_values(|s: String| s@) == icon_candidates(opt_view(exe_dir)),
{
    let mut r: Vec<String> = Vec::new();
    if let Some(d) = exe_dir {
        r.push(join_path(d, "assets/toolbar_icon_template.png"));
        r.push(join_path(d, "assets/toolbar_icon.png"));
        r.push(join_path(d, "assets/toolbar_icon.svg"));
    }
    r.push(String::from_str("assets/toolbar_icon_template.png"));
    r.push(String::from_str("assets/toolbar_icon.png"));
    r.push(String::from_str("assets/toolbar_icon.svg"));
    assert(r@.map_values(|s: String| s@) =~= icon_candidates(opt_view(exe_dir)));
    r
}

/// The LaunchAgent file: `<home>/Library/LaunchAgents/com.<user>.joy2qlc.plist`,
/// with `joy2qlc` for an unknown user and `/Users/Shared` for an unknown home.
pub open spec fn plist_path_text(user: Option<Seq<char>>, home: Option<Seq<char>>) -> Seq<char> {
    or_else(home, "/Users/Shared"@) + "/Library/LaunchAgents/"@ + "com."@ + or_else(
        user,
        "joy2qlc"@,
    ) + ".joy2qlc.plist"@
}

/// The LaunchAgent file, given the values of `USER` and `HOME`.
pub fn launch_agent_plist_path(user: Option<&str>, home: Option<&str>) -> (r: String)
    ensures
        r@ == plist_path_text(opt_view(user), opt_view(home)),
{
    let mut r = match home {
        Some(h) => String::from_str(h),
        None => String::from_str("/Users/Shared"),
    };
    r.append("/Library/LaunchAgents/");
    r.append("com.");
    match user {
        Some(u) => r.append(u),
        None => r.append("joy2qlc"),
    }
    r.append(".joy2qlc.plist");
    r
}

/// The text of the LaunchAgent before the executable's path.
pub open spec fn plist_head() -> Seq<char> {
    "<?xml version=\"1.0\" encoding=\"UTF-8\"?>\n<!DOCTYPE plist PUBLIC \"-//Apple//DTD PLIST 1.0//EN\" \"http://www.apple.com/DTDs/PropertyList-1.0.dtd\">\n<plist version=\"1.0\">\n<dict>\n  <key>Label</key>\n  <string>com.joy2qlc.agent</string>\n  <key>ProgramArguments</key>\n  <array>\n    <string>"@
}

/// The text of the LaunchAgent after the executable's path.
pub open spec fn plist_tail() -> Seq<char> {
    "</string>\n  </array>\n  <key>RunAtLoad</key>\n  <true/>\n  <key>KeepAlive</key>\n  <false/>\n</dict>\n</plist>"@
}

/// The LaunchAgent that runs `exe` at login, once, without keeping it alive.
pub fn launch_agent_plist(exe: &str) -> (r: String)
    ensures
        r@ == plist_head() + exe@ + plist_tail(),
{
    let mut r = String::from_str(
        "<?xml version=\"1.0\" encoding=\"UTF-8\"?>\n<!DOCTYPE plist PUBLIC \"-//Apple//DTD PLIST 1.0//EN\" \"http://www.apple.com/DTDs/PropertyList-1.0.dtd\">\n<plist version=\"1.0\">\n<dict>\n  <key>Label</key>\n  <string>com.joy2qlc.agent</string>\n  <key>ProgramArguments</key>\n  <array>\n    <string>",
    );
    r.append(exe);
    r.append(
        "</string>\n  </array>\n  <key>RunAtLoad</key>\n  <true/>\n  <key>KeepAlive</key>\n  <false/>\n</dict>\n</plist>",
    );
    r
}


/// Whether `needle` occurs in `hay`.
pub open spec fn has_text(hay: Seq<char>, needle: Seq<char>) -> bool {
    exists|i: int| 0 <= i && i + needle.len() <= hay.len() && #[trigger] hay.subrange(i, i + needle.len()) == needle
}

/// The LaunchAgent starts the bridge at login (`RunAtLoad` true), does not
/// keep it alive (`KeepAlive` false), and runs `exe` alone, with no other
/// argument.
pub proof fn lemma_launch_agent_runs_exe_at_login(exe: Seq<char>)
    ensures
        has_text(plist_head() + exe + plist_tail(), "<key>RunAtLoad</key>\n  <true/>"@),
        has_text(plist_head() + exe + plist_tail(), "<key>KeepAlive</key>\n  <false/>"@),
        has_text(
            plist_head() + exe + plist_tail(),
            "<key>ProgramArguments</key>\n  <array>\n    <string>"@ + exe + "</string>\n  </array>"@,
        ),
{
    reveal_strlit("<?xml version=\"1.0\" encoding=\"UTF-8\"?>\n<!DOCTYPE plist PUBLIC \"-//Apple//DTD PLIST 1.0//EN\" \"http://www.apple.com/DTDs/PropertyList-1.0.dtd\">\n<plist version=\"1.0\">\n<dict>\n  <key>Label</key>\n  <string>com.joy2qlc.agent</string>\n  <key>ProgramArguments</key>\n  <array>\n    <string>");
    reveal_strlit("</string>\n  </array>\n  <key>RunAtLoad</key>\n  <true/>\n  <key>KeepAlive</key>\n  <false/>\n</dict>\n</plist>");
    reveal_strlit("<key>RunAtLoad</key>\n  <true/>");
    reveal_strlit("<key>KeepAlive</key>\n  <false/>");
    reveal_strlit("<key>ProgramArguments</key>\n  <array>\n    <string>");
    reveal_strlit("</string>\n  </array>");
    let h = plist_head();
    let t = plist_tail();
    let hay = h + exe + t;
    let base: int = (h.len() + exe.len()) as int;

    let run = "<key>RunAtLoad</key>\n  <true/>"@;
    assert(hay.subrange(base + 23, base + 23 + run.len() as int) =~= t.subrange(23, 23 + run.len() as int));
    assert(t.subrange(23, 23 + run.len() as int) =~= run);
    assert(hay.subrange(base + 23, base + 23 + run.len() as int) == run);

    let keep = "<key>KeepAlive</key>\n  <false/>"@;
    assert(hay.subrange(base + 56, base + 56 + keep.len() as int) =~= t.subrange(56, 56 + keep.len() as int));
    assert(t.subrange(56, 56 + keep.len() as int) =~= keep);
    assert(hay.subrange(base + 56, base + 56 + keep.len() as int) == keep);

    let open = "<key>ProgramArguments</key>\n  <array>\n    <string>"@;
    let close = "</string>\n  </array>"@;
    let args = open + exe + close;
    assert(h.subrange(229, 279) =~= open);
    assert(t.subrange(0, 20) =~= close);
    assert(hay.subrange(229, 229 + args.len() as int) =~= h.subrange(229, 279) + exe + t.subrange(0, 20));
    assert(hay.subrange(229, 229 + args.len() as int) == args);
}

} // verus!
