//! The four-line status panel at the bottom of the terminal: incoming OSC,
//! outgoing OSC, the last button event and the last axis event.
//!
//! Setting a line gives the text to write to the terminal; writing it belongs
//! to the program around the library.
use vstd::prelude::*;
use vstd::string::StringExecFns;

verus! {

/// The lines of the panel, and whether its four lines have been reserved.
#[derive(Debug)]
pub struct Status {
    pub osc_in: String,
    pub osc_out: String,
    pub button: String,
    pub axis: String,
    pub initialized: bool,
}

pub struct StatusModel {
    pub osc_in: Seq<char>,
    pub osc_out: Seq<char>,
    pub button: Seq<char>,
    pub axis: Seq<char>,
    pub initialized: bool,
}

impl View for Status {
    type V = StatusModel;

    open spec fn view(&self) -> StatusModel {
        StatusModel {
            osc_in: self.osc_in@,
            osc_out: self.osc_out@,
            button: self.button@,
            axis: self.axis@,
            initialized: self.initialized,
        }
    }
}

/// One panel line: erase the terminal line, write the text, move down.
pub open spec fn panel_line(s: Seq<char>) -> Seq<char> {
    "\x1b[2K"@ + s + "\n"@
}

/// What a redraw writes: four empty lines the first time (to reserve the
/// panel), then cursor up four lines and the four lines, top to bottom.
pub open spec fn frame_text(reserved: bool, st: StatusModel) -> Seq<char> {
    (if reserved {
        Seq::empty()
    } else {
        "\n\n\n\n"@
    }) + "\x1b[4A"@ + panel_line(st.osc_in) + panel_line(st.osc_out) + panel_line(st.button)
        + panel_line(st.axis)
}

impl Status {
    /// An empty panel whose lines are not reserved yet.
    pub fn new() -> (r: Status)
        ensures
            r@ == (StatusModel {
                osc_in: Seq::empty(),
                osc_out: Seq::empty(),
                button: Seq::empty(),
                axis: Seq::empty(),
                initialized: false,
            }),
    {
        Status {
            osc_in: String::new(),
            osc_out: String::new(),
            button: String::new(),
            axis: String::new(),
            initialized: false,
        }
    }

    /// The text that redraws the panel; the lines count as reserved after.
    pub fn redraw(&mut self) -> (r: String)
        ensures
            r@ == frame_text(old(self).initialized, old(self)@),
            final(self)@ == (StatusModel { initialized: true, ..old(self)@ }),
    {
        let mut out = String::new();
        if !self.initialized {
            out.append("\n\n\n\n");
            self.initialized = true;
        }
        out.append("\x1b[4A");
        out.append("\x1b[2K");
        out.append(self.osc_in.as_str());
        out.append("\n");
        out.append("\x1b[2K");
        out.append(self.osc_out.as_str());
        out.append("\n");
        out.append("\x1b[2K");
        out.append(self.button.as_str());
        out.append("\n");
        out.append("\x1b[2K");
        out.append(self.axis.as_str());
        out.append("\n");
        assert(out@ =~= frame_text(old(self).initialized, old(self)@));
        out
    }
}

/// Sets the axis line (bottom) and gives the text that redraws the panel.
pub fn set_axis_line(st: &mut Status, s: &str) -> (r: String)
    ensures
        final(st)@ == (StatusModel { axis: s@, initialized: true, ..old(st)@ }),
        r@ == frame_text(old(st).initialized, (StatusModel { axis: s@, ..old(st)@ })),
{
    st.axis = String::from_str(s);
    st.redraw()
}

/// Sets the button line (third) and gives the text that redraws the panel.
pub fn set_button_line(st: &mut Status, s: &str) -> (r: String)
    ensures
        final(st)@ == (StatusModel { button: s@, initialized: true, ..old(st)@ }),
        r@ == frame_text(old(st).initialized, (StatusModel { button: s@, ..old(st)@ })),
{
    st.button = String::from_str(s);
    st.redraw()
}

/// Sets the incoming OSC line (top) and gives the text that redraws the
/// panel.
pub fn set_osc_in_line(st: &mut Status, s: &str) -> (r: String)
    ensures
        final(st)@ == (StatusModel { osc_in: s@, initialized: true, ..old(st)@ }),
        r@ == frame_text(old(st).initialized, (StatusModel { osc_in: s@, ..old(st)@ })),
{
    st.osc_in = String::from_str(s);
    st.redraw()
}

/// Sets the outgoing OSC line (second) and gives the text that redraws the
/// panel.
pub fn set_osc_out_line(st: &mut Status, s: &str) -> (r: String)
    ensures
        final(st)@ == (StatusModel { osc_out: s@, initialized: true, ..old(st)@ }),
        r@ == frame_text(old(st).initialized, (StatusModel { osc_out: s@, ..old(st)@ })),
{
    st.osc_out = String::from_str(s);
    st.redraw()
}

} // verus!
