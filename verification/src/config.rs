//! The mapping configuration (`mappings.toml`): what each joystick input
//! triggers, how the configuration is searched, and what an action sends.
use vstd::prelude::*;
use vstd::string::StringExecFns;
use crate::osc::{
    F32Bits, OscArg, OscMessage, OscMessageModel, cc_message, note_on_message, note_off_message,
    program_change_message, send_control_change, send_note_on, send_note_off, send_program_change,
};
use crate::keys::{Key, key_for_name, send_key};
use crate::text::{
    texts, same_text, eq_ignore_ascii_case, parse_i32, parse_i32_spec, same_ignoring_ascii_case, nat_text,
    u64_text,
};

verus! {

/// The whole configuration: the mappings in file order.
#[derive(Debug)]
pub struct Config {
    pub mappings: Vec<Mapping>,
}

/// One input and the action it triggers.
#[derive(Debug)]
pub struct Mapping {
    pub input: InputSpec,
    pub action: Action,
    /// Messages to send when the gating button of an axis mapping is pressed.
    pub init: Option<InitSpec>,
}

/// Messages sent when the button that gates an axis mapping goes down.
#[derive(Debug)]
pub struct InitSpec {
    /// `control_change` or `control_change_from_axis`; other kinds send nothing.
    pub typ: String,
    pub channel: Option<u8>,
    pub controller: Option<u8>,
    pub value: Option<InitValue>,
    pub count: Option<u8>,
    pub delay_ms: Option<u64>,
}

/// One value, or a list of values, to send.
#[derive(Debug)]
pub enum InitValue {
    Int(i32),
    IntList(Vec<i32>),
}

/// The joystick input of a mapping.
#[derive(Debug)]
pub struct InputSpec {
    /// `button` or `axis`.
    pub typ: String,
    /// The input's name, such as `South` or `LeftStickX`.
    pub code: String,
    /// A button that must be held for this input to be active.
    pub while_button: Option<String>,
    /// What to send when the gating button is released (default: the integer 0).
    pub release_value: Option<ReleaseValue>,
    /// Input range of an axis mapping, such as `[1, -1]`.
    pub input_range: Option<Vec<F32Bits>>,
    /// Output range of an axis mapping, such as `[0, 127]`.
    pub output_range: Option<Vec<i32>>,
}

/// The value sent on release of a gating button.
#[derive(Clone, Copy, Debug, PartialEq, Eq, Structural)]
pub enum ReleaseValue {
    Int(i32),
    Float(F32Bits),
    /// An explicit OSC Nil.
    SendNil,
}

/// The output range of an axis-driven action.
#[derive(Debug)]
pub enum ActionRange {
    Range(Vec<F32Bits>),
    /// Send the raw axis value.
    Passthrough,
}

/// What a mapping does.
#[derive(Debug)]
pub enum Action {
    NoteOn { channel: Option<u8>, note: u8, velocity: Option<u8>, count: Option<u8>, delay_ms: Option<u64> },
    NoteOff { channel: Option<u8>, note: u8, velocity: Option<u8>, count: Option<u8>, delay_ms: Option<u64> },
    ControlChange { channel: Option<u8>, controller: u8, value: u8, count: Option<u8>, delay_ms: Option<u64> },
    ProgramChange { channel: Option<u8>, program: u8, count: Option<u8>, delay_ms: Option<u64> },
    /// A control change driven by the value of an axis.
    ControlChangeFromAxis {
        channel: Option<u8>,
        controller: u8,
        invert: Option<bool>,
        range: Option<ActionRange>,
        count: Option<u8>,
        delay_ms: Option<u64>,
    },
    /// Click a system key, named as [`crate::keys::send_key`] reads it.
    Key { key: String },
    /// An HTTP request: `method` (`POST` when absent) to `url`, with `body`
    /// (empty when absent).
    Rest { method: Option<String>, url: String, body: Option<String> },
    /// Run an external command with its arguments.
    Exec { cmd: String, args: Option<Vec<String>> },
}

// ---------------------------------------------------------------------------
// Mathematical values of the configuration types
// ---------------------------------------------------------------------------

pub enum InitValueModel {
    Int(i32),
    IntList(Seq<i32>),
}

pub struct InitSpecModel {
    pub typ: Seq<char>,
    pub channel: Option<u8>,
    pub controller: Option<u8>,
    pub value: Option<InitValueModel>,
    pub count: Option<u8>,
    pub delay_ms: Option<u64>,
}

pub struct InputSpecModel {
    pub typ: Seq<char>,
    pub code: Seq<char>,
    pub while_button: Option<Seq<char>>,
    pub release_value: Option<ReleaseValue>,
    pub input_range: Option<Seq<F32Bits>>,
    pub output_range: Option<Seq<i32>>,
}

pub enum ActionRangeModel {
    Range(Seq<F32Bits>),
    Passthrough,
}

pub enum ActionModel {
    NoteOn { channel: Option<u8>, note: u8, velocity: Option<u8>, count: Option<u8>, delay_ms: Option<u64> },
    NoteOff { channel: Option<u8>, note: u8, velocity: Option<u8>, count: Option<u8>, delay_ms: Option<u64> },
    ControlChange { channel: Option<u8>, controller: u8, value: u8, count: Option<u8>, delay_ms: Option<u64> },
    ProgramChange { channel: Option<u8>, program: u8, count: Option<u8>, delay_ms: Option<u64> },
    ControlChangeFromAxis {
        channel: Option<u8>,
        controller: u8,
        invert: Option<bool>,
        range: Option<ActionRangeModel>,
        count: Option<u8>,
        delay_ms: Option<u64>,
    },
    Key { key: Seq<char> },
    Rest { method: Option<Seq<char>>, url: Seq<char>, body: Option<Seq<char>> },
    Exec { cmd: Seq<char>, args: Option<Seq<Seq<char>>> },
}

pub struct MappingModel {
    pub input: InputSpecModel,
    pub action: ActionModel,
    pub init: Option<InitSpecModel>,
}

/// The view of an optional value.
pub open spec fn opt_view<T: View>(o: Option<T>) -> Option<T::V> {
    match o {
        Some(t) => Some(t@),
        None => None,
    }
}

impl View for InitValue {
    type V = InitValueModel;

    open spec fn view(&self) -> InitValueModel {
        match self {
            InitValue::Int(x) => InitValueModel::Int(*x),
            InitValue::IntList(v) => InitValueModel::IntList(v@),
        }
    }
}

impl View for InitSpec {
    type V = InitSpecModel;

    open spec fn view(&self) -> InitSpecModel {
        InitSpecModel {
            typ: self.typ@,
            channel: self.channel,
            controller: self.controller,
            value: opt_view(self.value),
            count: self.count,
            delay_ms: self.delay_ms,
        }
    }
}

impl View for InputSpec {
    type V = InputSpecModel;

    open spec fn view(&self) -> InputSpecModel {
        InputSpecModel {
            typ: self.typ@,
            code: self.code@,
            while_button: opt_view(self.while_button),
            release_value: self.release_value,
            input_range: opt_view(self.input_range),
            output_range: opt_view(self.output_range),
        }
    }
}

impl View for ActionRange {
    type V = ActionRangeModel;

    open spec fn view(&self) -> ActionRangeModel {
        match self {
            ActionRange::Range(v) => ActionRangeModel::Range(v@),
            ActionRange::Passthrough => ActionRangeModel::Passthrough,
        }
    }
}

impl View for Action {
    type V = ActionModel;

    open spec fn view(&self) -> ActionModel {
        match *self {
            Action::NoteOn { channel, note, velocity, count, delay_ms } => ActionModel::NoteOn {
                channel,
                note,
                velocity,
                count,
                delay_ms,
            },
            Action::NoteOff { channel, note, velocity, count, delay_ms } => ActionModel::NoteOff {
                channel,
                note,
                velocity,
                count,
                delay_ms,
            },
            Action::ControlChange { channel, controller, value, count, delay_ms } =>
                ActionModel::ControlChange { channel, controller, value, count, delay_ms },
            Action::ProgramChange { channel, program, count, delay_ms } =>
                ActionModel::ProgramChange { channel, program, count, delay_ms },
            Action::ControlChangeFromAxis { channel, controller, invert, range, count, delay_ms } =>
                ActionModel::ControlChangeFromAxis {
                channel,
                controller,
                invert,
                range: opt_view(range),
                count,
                delay_ms,
            },
            Action::Key { key } => ActionModel::Key { key: key@ },
            Action::Rest { method, url, body } => ActionModel::Rest {
                method: opt_view(method),
                url: url@,
                body: opt_view(body),
            },
            Action::Exec { cmd, args } => ActionModel::Exec {
                cmd: cmd@,
                args: match args {
                    Some(v) => Some(texts(v@)),
                    None => None,
                },
            },
        }
    }
}

impl View for Mapping {
    type V = MappingModel;

    open spec fn view(&self) -> MappingModel {
        MappingModel { input: self.input@, action: self.action@, init: opt_view(self.init) }
    }
}

/// The mappings of a sequence, by value.
pub open spec fn models(ms: Seq<Mapping>) -> Seq<MappingModel> {
    ms.map_values(|m: Mapping| m@)
}

impl View for Config {
    type V = Seq<MappingModel>;

    open spec fn view(&self) -> Seq<MappingModel> {
        models(self.mappings@)
    }
}

// ---------------------------------------------------------------------------
// Copies
// ---------------------------------------------------------------------------

fn clone_opt_string(o: &Option<String>) -> (r: Option<String>)
    ensures
        opt_view(r) == opt_view(*o),
{
    match o {
        Some(s) => Some(s.clone()),
        None => None,
    }
}

fn clone_strings(v: &Vec<String>) -> (r: Vec<String>)
    ensures
        texts(r@) == texts(v@),
{
    let mut r: Vec<String> = Vec::new();
    let mut i: usize = 0;
    while i < v.len()
        invariant
            i <= v@.len(),
            texts(r@) == texts(v@.take(i as int)),
        decreases v@.len() - i,
    {
        let ghost prev = r@;
        let c = v[i].clone();
        r.push(c);
        i = i + 1;
        assert(texts(r@) =~= texts(prev).push(c@));
        assert(texts(v@.take(i as int)) =~= texts(v@.take(i - 1)).push(v@[i - 1]@));
    }
    assert(v@.take(v@.len() as int) =~= v@);
    r
}

fn clone_vec<T: Copy>(v: &Vec<T>) -> (r: Vec<T>)
    ensures
        r@ == v@,
{
    let mut r: Vec<T> = Vec::new();
    let mut i: usize = 0;
    while i < v.len()
        invariant
            i <= v@.len(),
            r@ == v@.take(i as int),
        decreases v@.len() - i,
    {
        r.push(v[i]);
        i = i + 1;
        assert(r@ =~= v@.take(i as int));
    }
    assert(v@.take(v@.len() as int) =~= v@);
    r
}

fn clone_opt_vec<T: Copy>(o: &Option<Vec<T>>) -> (r: Option<Vec<T>>)
    ensures
        opt_view(r) == opt_view(*o),
{
    match o {
        Some(v) => Some(clone_vec(v)),
        None => None,
    }
}

impl Clone for InitValue {
    fn clone(&self) -> (r: Self)
        ensures
            r@ == self@,
    {
        match self {
            InitValue::Int(x) => InitValue::Int(*x),
            InitValue::IntList(v) => InitValue::IntList(clone_vec(v)),
        }
    }
}

impl Clone for InitSpec {
    fn clone(&self) -> (r: Self)
        ensures
            r@ == self@,
    {
        let value = match &self.value {
            Some(v) => Some(v.clone()),
            None => None,
        };
        InitSpec {
            typ: self.typ.clone(),
            channel: self.channel,
            controller: self.controller,
            value,
            count: self.count,
            delay_ms: self.delay_ms,
        }
    }
}

impl Clone for InputSpec {
    fn clone(&self) -> (r: Self)
        ensures
            r@ == self@,
    {
        InputSpec {
            typ: self.typ.clone(),
            code: self.code.clone(),
            while_button: clone_opt_string(&self.while_button),
            release_value: self.release_value,
            input_range: clone_opt_vec(&self.input_range),
            output_range: clone_opt_vec(&self.output_range),
        }
    }
}

impl Clone for ActionRange {
    fn clone(&self) -> (r: Self)
        ensures
            r@ == self@,
    {
        match self {
            ActionRange::Range(v) => ActionRange::Range(clone_vec(v)),
            ActionRange::Passthrough => ActionRange::Passthrough,
        }
    }
}

impl Clone for Action {
    fn clone(&self) -> (r: Self)
        ensures
            r@ == self@,
    {
        match self {
            Action::NoteOn { channel, note, velocity, count, delay_ms } => Action::NoteOn {
                channel: *channel,
                note: *note,
                velocity: *velocity,
                count: *count,
                delay_ms: *delay_ms,
            },
            Action::NoteOff { channel, note, velocity, count, delay_ms } => Action::NoteOff {
                channel: *channel,
                note: *note,
                velocity: *velocity,
                count: *count,
                delay_ms: *delay_ms,
            },
            Action::ControlChange { channel, controller, value, count, delay_ms } =>
                Action::ControlChange {
                channel: *channel,
                controller: *controller,
                value: *value,
                count: *count,
                delay_ms: *delay_ms,
            },
            Action::ProgramChange { channel, program, count, delay_ms } => Action::ProgramChange {
                channel: *channel,
                program: *program,
                count: *count,
                delay_ms: *delay_ms,
            },
            Action::ControlChangeFromAxis { channel, controller, invert, range, count, delay_ms } => {
                let range = match range {
                    Some(r) => Some(r.clone()),
                    None => None,
                };
                Action::ControlChangeFromAxis {
                    channel: *channel,
                    controller: *controller,
                    invert: *invert,
                    range,
                    count: *count,
                    delay_ms: *delay_ms,
                }
            },
            Action::Key { key } => Action::Key { key: key.clone() },
            Action::Rest { method, url, body } => Action::Rest {
                method: clone_opt_string(method),
                url: url.clone(),
                body: clone_opt_string(body),
            },
            Action::Exec { cmd, args } => {
                let args = match args {
                    Some(v) => Some(clone_strings(v)),
                    None => None,
                };
                Action::Exec { cmd: cmd.clone(), args }
            },
        }
    }
}

impl Clone for Mapping {
    fn clone(&self) -> (r: Self)
        ensures
            r@ == self@,
    {
        let init = match &self.init {
            Some(i) => Some(i.clone()),
            None => None,
        };
        Mapping { input: self.input.clone(), action: self.action.clone(), init }
    }
}

impl Clone for Config {
    fn clone(&self) -> (r: Self)
        ensures
            r@ == self@,
    {
        let mut mappings: Vec<Mapping> = Vec::new();
        let mut i: usize = 0;
        while i < self.mappings.len()
            invariant
                i <= self.mappings@.len(),
                mappings@.len() == i,
                models(mappings@) == models(self.mappings@.take(i as int)),
            decreases self.mappings@.len() - i,
        {
            let ghost prev = mappings@;
            let c = self.mappings[i].clone();
            mappings.push(c);
            proof {
                let upto = self.mappings@.take(i + 1);
                assert forall|j: int| 0 <= j < i + 1 implies models(mappings@)[j] == models(
                    upto,
                )[j] by {
                    if j < i {
                        assert(models(prev)[j] == models(self.mappings@.take(i as int))[j]);
                        assert(mappings@[j] == prev[j]);
                    } else {
                        assert(mappings@[j] == c);
                        assert(upto[j] == self.mappings@[j]);
                    }
                }
                assert(models(mappings@) =~= models(upto));
            }
            i = i + 1;
        }
        assert(self.mappings@.take(self.mappings@.len() as int) =~= self.mappings@);
        Config { mappings }
    }
}

// ---------------------------------------------------------------------------
// Looking up mappings
// ---------------------------------------------------------------------------

/// The input kind of button mappings.
pub open spec fn button_kind() -> Seq<char> {
    "button"@
}

/// The input kind of axis mappings.
pub open spec fn axis_kind() -> Seq<char> {
    "axis"@
}

/// Whether the mapping's input is of kind `typ` and named `code`.
pub open spec fn has_input(m: MappingModel, typ: Seq<char>, code: Seq<char>) -> bool {
    m.input.typ == typ && m.input.code == code
}

/// All mappings for an input, in file order.
pub open spec fn mappings_for(ms: Seq<MappingModel>, typ: Seq<char>, code: Seq<char>) -> Seq<
    MappingModel,
> {
    ms.filter(|m: MappingModel| has_input(m, typ, code))
}

/// The first mapping for an input, scanning in file order.
pub open spec fn first_mapping_for(ms: Seq<MappingModel>, typ: Seq<char>, code: Seq<char>) -> Option<
    MappingModel,
>
    decreases ms.len(),
{
    if ms.len() == 0 {
        None
    } else if has_input(ms[0], typ, code) {
        Some(ms[0])
    } else {
        first_mapping_for(ms.drop_first(), typ, code)
    }
}

/// The action of an optional mapping.
pub open spec fn action_of(m: Option<MappingModel>) -> Option<ActionModel> {
    match m {
        Some(m) => Some(m.action),
        None => None,
    }
}

/// The first mapping for an input is the first of all mappings for it; there
/// is one exactly when there are any.
pub proof fn lemma_first_is_head_of_all(ms: Seq<MappingModel>, typ: Seq<char>, code: Seq<char>)
    ensures
        first_mapping_for(ms, typ, code) == (if mappings_for(ms, typ, code).len() > 0 {
            Some(mappings_for(ms, typ, code)[0])
        } else {
            None
        }),
    decreases ms.len(),
{
    let p = |m: MappingModel| has_input(m, typ, code);
    if ms.len() == 0 {
        reveal(Seq::filter);
    } else {
        let rest = ms.drop_first();
        assert(ms =~= seq![ms[0]] + rest);
        rest.lemma_filter_prepend(ms[0], p);
        lemma_first_is_head_of_all(rest, typ, code);
    }
}

impl Config {
    /// The position of the first mapping for an input.
    fn first_index(&self, typ: &str, code: &str) -> (r: Option<usize>)
        ensures
            match r {
                Some(i) => i < self@.len() && first_mapping_for(self@, typ@, code@) == Some(
                    self@[i as int],
                ),
                None => first_mapping_for(self@, typ@, code@) is None,
            },
    {
        let n = self.mappings.len();
        let mut i: usize = 0;
        assert(self@.skip(0) =~= self@);
        while i < n
            invariant
                n == self@.len(),
                i <= n,
                first_mapping_for(self@, typ@, code@) == first_mapping_for(
                    self@.skip(i as int),
                    typ@,
                    code@,
                ),
            decreases n - i,
        {
            let m = &self.mappings[i];
            assert(self@.skip(i as int)[0] == m@);
            if same_text(&m.input.typ, typ) && same_text(&m.input.code, code) {
                return Some(i);
            }
            assert(self@.skip(i as int).drop_first() =~= self@.skip(i + 1));
            i = i + 1;
        }
        None
    }

    /// The action of the first mapping for the button `button_name`.
    pub fn find_action_for_button(&self, button_name: &str) -> (r: Option<Action>)
        ensures
            opt_view(r) == action_of(first_mapping_for(self@, button_kind(), button_name@)),
    {
        match self.first_index("button", button_name) {
            Some(i) => Some(self.mappings[i].action.clone()),
            None => None,
        }
    }

    /// The action of the first mapping for the axis `axis_name`.
    pub fn find_action_for_axis(&self, axis_name: &str) -> (r: Option<Action>)
        ensures
            opt_view(r) == action_of(first_mapping_for(self@, axis_kind(), axis_name@)),
    {
        match self.first_index("axis", axis_name) {
            Some(i) => Some(self.mappings[i].action.clone()),
            None => None,
        }
    }

    /// The first mapping for the axis `axis_name`, with its gating button and
    /// release value.
    pub fn find_mapping_for_axis(&self, axis_name: &str) -> (r: Option<Mapping>)
        ensures
            opt_view(r) == first_mapping_for(self@, axis_kind(), axis_name@),
    {
        match self.first_index("axis", axis_name) {
            Some(i) => Some(self.mappings[i].clone()),
            None => None,
        }
    }

    /// All mappings for the axis `axis_name`, in file order (several can share
    /// one axis, gated by different buttons).
    pub fn find_mappings_for_axis(&self, axis_name: &str) -> (r: Vec<Mapping>)
        ensures
            models(r@) == mappings_for(self@, axis_kind(), axis_name@),
    {
        let ghost p = |m: MappingModel| has_input(m, axis_kind(), axis_name@);
        let n = self.mappings.len();
        let mut out: Vec<Mapping> = Vec::new();
        let mut i: usize = 0;
        while i < n
            invariant
                n == self@.len(),
                i <= n,
                p == (|m: MappingModel| has_input(m, axis_kind(), axis_name@)),
                models(out@) == self@.take(i as int).filter(p),
            decreases n - i,
        {
            let m = &self.mappings[i];
            let ghost prev = out@;
            proof {
                reveal(Seq::filter);
                assert(self@.take(i + 1).drop_last() =~= self@.take(i as int));
                assert(self@.take(i + 1).last() == m@);
            }
            if same_text(&m.input.typ, "axis") && same_text(&m.input.code, axis_name) {
                let c = m.clone();
                out.push(c);
                proof {
                    assert(models(out@) =~= models(prev).push(c@));
                }
            }
            i = i + 1;
        }
        assert(self@.take(n as int) =~= self@);
        out
    }

    /// The axes, in file order, of the axis mappings whose release value is
    /// the integer 0 (on release they send 0 rather than the centre, which is
    /// likely unintended and worth a warning).
    pub fn axes_releasing_zero(&self) -> (r: Vec<String>)
        ensures
            r@.map_values(|s: String| s@) == self@.filter(|m: MappingModel| releases_zero(m)).map_values(
                |m: MappingModel| m.input.code,
            ),
    {
        let ghost p = |m: MappingModel| releases_zero(m);
        let ghost f = |m: MappingModel| m.input.code;
        let ghost g = |s: String| s@;
        let n = self.mappings.len();
        let mut out: Vec<String> = Vec::new();
        let mut i: usize = 0;
        while i < n
            invariant
                n == self@.len(),
                i <= n,
                p == (|m: MappingModel| releases_zero(m)),
                f == (|m: MappingModel| m.input.code),
                g == (|s: String| s@),
                out@.map_values(g) == self@.take(i as int).filter(p).map_values(f),
            decreases n - i,
        {
            let m = &self.mappings[i];
            let ghost prev = out@;
            let ghost before = self@.take(i as int).filter(p);
            proof {
                reveal(Seq::filter);
                assert(self@.take(i + 1).drop_last() =~= self@.take(i as int));
                assert(self@.take(i + 1).last() == m@);
            }
            let zero = match m.input.release_value {
                Some(ReleaseValue::Int(v)) => v == 0,
                _ => false,
            };
            if same_text(&m.input.typ, "axis") && zero {
                let c = m.input.code.clone();
                out.push(c);
                proof {
                    assert(self@.take(i + 1).filter(p) == before.push(m@));
                    assert(out@.map_values(g) =~= prev.map_values(g).push(c@));
                    assert(before.push(m@).map_values(f) =~= before.map_values(f).push(f(m@)));
                }
            } else {
                assert(self@.take(i + 1).filter(p) == before);
            }
            i = i + 1;
        }
        assert(self@.take(n as int) =~= self@);
        out
    }
}

/// An axis mapping whose release value is the integer 0.
pub open spec fn releases_zero(m: MappingModel) -> bool {
    m.input.typ == axis_kind() && m.input.release_value == Some(ReleaseValue::Int(0))
}

// ---------------------------------------------------------------------------
// Values written as text in the configuration
// ---------------------------------------------------------------------------

/// Whether a text means "no value": `null` in any ASCII case, or empty.
pub open spec fn is_null_text(s: Seq<char>) -> bool {
    same_ignoring_ascii_case(s, "null"@) || s.len() == 0
}

/// `release_value` written as text: `null` or empty leaves it unset, `none`
/// (any case) sends an OSC Nil, a decimal integer sends that integer; any
/// other text is an error.
pub open spec fn release_value_text(s: Seq<char>) -> Option<Option<ReleaseValue>> {
    if is_null_text(s) {
        Some(None)
    } else if same_ignoring_ascii_case(s, "none"@) {
        Some(Some(ReleaseValue::SendNil))
    } else {
        match parse_i32_spec(s) {
            Some(i) => Some(Some(ReleaseValue::Int(i))),
            None => None,
        }
    }
}

/// Whether `s` is exactly `null`, in any ASCII case, or empty.
fn null_text(s: &str) -> (r: bool)
    ensures
        r == is_null_text(s@),
{
    eq_ignore_ascii_case(s, "null") || s.is_empty()
}

/// The `release_value` of a mapping written as text.
pub fn release_value_from_text(s: &str) -> (r: Result<Option<ReleaseValue>, String>)
    ensures
        match r {
            Ok(v) => release_value_text(s@) == Some(v),
            Err(e) => release_value_text(s@) is None && e@ == "invalid string for release_value"@,
        },
{
    if null_text(s) {
        Ok(None)
    } else if eq_ignore_ascii_case(s, "none") {
        Ok(Some(ReleaseValue::SendNil))
    } else {
        match parse_i32(s) {
            Some(i) => Ok(Some(ReleaseValue::Int(i))),
            None => Err(String::from_str("invalid string for release_value")),
        }
    }
}

/// The `release_value` of a mapping written as a signed integer: its low
/// 32 bits.
pub fn release_value_from_i64(v: i64) -> (r: ReleaseValue)
    ensures
        r == ReleaseValue::Int(v as i32),
{
    ReleaseValue::Int(v as i32)
}

/// The `release_value` of a mapping written as an unsigned integer: its low
/// 32 bits.
pub fn release_value_from_u64(v: u64) -> (r: ReleaseValue)
    ensures
        r == ReleaseValue::Int(v as i32),
{
    ReleaseValue::Int(v as i32)
}

/// The `range` of an axis-driven action written as text: `null` or empty
/// asks for passthrough; any other text is an error.
pub fn action_range_from_text(s: &str) -> (r: Result<Option<ActionRange>, String>)
    ensures
        match r {
            Ok(v) => is_null_text(s@) && opt_view(v) == Some(ActionRangeModel::Passthrough),
            Err(e) => !is_null_text(s@) && e@
                == "invalid string for action.range; expected 'null'"@,
        },
{
    if null_text(s) {
        Ok(Some(ActionRange::Passthrough))
    } else {
        Err(String::from_str("invalid string for action.range; expected 'null'"))
    }
}

/// An optional integer written as text: `null` or empty is no value, a
/// decimal integer is that value; any other text is an error.
pub fn nullable_i32_from_text(s: &str) -> (r: Result<Option<i32>, String>)
    ensures
        match r {
            Ok(v) => if is_null_text(s@) {
                v is None
            } else {
                parse_i32_spec(s@) is Some && v == parse_i32_spec(s@)
            },
            Err(e) => !is_null_text(s@) && parse_i32_spec(s@) is None && e@
                == "invalid string for release_value"@,
        },
{
    if null_text(s) {
        Ok(None)
    } else {
        match parse_i32(s) {
            Some(i) => Ok(Some(i)),
            None => Err(String::from_str("invalid string for release_value")),
        }
    }
}

/// An optional integer written as an integer: its low 32 bits.
pub fn nullable_i32_from_i64(v: i64) -> (r: Option<i32>)
    ensures
        r == Some(v as i32),
{
    Some(v as i32)
}

/// An optional integer written as an unsigned integer: its low 32 bits.
pub fn nullable_i32_from_u64(v: u64) -> (r: Option<i32>)
    ensures
        r == Some(v as i32),
{
    Some(v as i32)
}

// ---------------------------------------------------------------------------
// Executing actions
// ---------------------------------------------------------------------------

/// What executing an action does.
#[derive(Debug)]
pub enum Dispatch {
    /// Send `message` once; when that succeeds, add `log_line` to the
    /// actions log.
    Once { message: OscMessage, log_line: String },
    /// From a background thread, send `message` `times` times, pausing
    /// `delay_ms` milliseconds after each send when it is not 0.
    Repeat { message: OscMessage, times: usize, delay_ms: u64 },
    /// Click `key`; an unknown key name gives none, to be reported.
    PressKey { key: Option<Key> },
    /// Make the HTTP request `method` to `url` with `body`.
    Http { method: String, url: String, body: String },
    /// Run `cmd` with `args`.
    Run { cmd: String, args: Vec<String> },
}

pub enum DispatchModel {
    Once { message: OscMessageModel, log_line: Seq<char> },
    Repeat { message: OscMessageModel, times: nat, delay_ms: u64 },
    PressKey { key: Option<Key> },
    Http { method: Seq<char>, url: Seq<char>, body: Seq<char> },
    Run { cmd: Seq<char>, args: Seq<Seq<char>> },
}

impl View for Dispatch {
    type V = DispatchModel;

    open spec fn view(&self) -> DispatchModel {
        match self {
            Dispatch::Once { message, log_line } => DispatchModel::Once {
                message: message@,
                log_line: log_line@,
            },
            Dispatch::Repeat { message, times, delay_ms } => DispatchModel::Repeat {
                message: message@,
                times: *times as nat,
                delay_ms: *delay_ms,
            },
            Dispatch::PressKey { key } => DispatchModel::PressKey { key: *key },
            Dispatch::Http { method, url, body } => DispatchModel::Http {
                method: method@,
                url: url@,
                body: body@,
            },
            Dispatch::Run { cmd, args } => DispatchModel::Run { cmd: cmd@, args: texts(args@) },
        }
    }
}

/// `o.unwrap_or(d)`.
pub open spec fn or_else<T>(o: Option<T>, d: T) -> T {
    match o {
        Some(v) => v,
        None => d,
    }
}

/// Send once when the count is absent, 0 or 1; otherwise repeat `count` times.
pub open spec fn dispatch_of(
    message: OscMessageModel,
    log_line: Seq<char>,
    count: Option<u8>,
    delay_ms: Option<u64>,
) -> DispatchModel {
    let times = or_else(count, 1u8);
    if times <= 1 {
        DispatchModel::Once { message, log_line }
    } else {
        DispatchModel::Repeat { message, times: times as nat, delay_ms: or_else(delay_ms, 0u64) }
    }
}

/// `label` followed by the decimal text of `n`.
pub open spec fn field(label: Seq<char>, n: nat) -> Seq<char> {
    label + nat_text(n)
}

/// What executing an action does; axis-driven actions need an axis value
/// and do nothing here. The channel defaults to 0, the velocity of a Note On
/// to 127 and that of a Note Off to 0; an HTTP request is a `POST` with an
/// empty body unless the action says otherwise, and a command without
/// arguments runs with none.
pub open spec fn action_dispatch(a: ActionModel) -> Option<DispatchModel> {
    match a {
        ActionModel::NoteOn { channel, note, velocity, count, delay_ms } => {
            let ch = or_else(channel, 0u8);
            let vel = or_else(velocity, 127u8);
            Some(
                dispatch_of(
                    note_on_message(note, vel),
                    field("NoteOn ch="@, ch as nat) + field(" note="@, note as nat) + field(
                        " vel="@,
                        vel as nat,
                    ),
                    count,
                    delay_ms,
                ),
            )
        },
        ActionModel::NoteOff { channel, note, velocity, count, delay_ms } => {
            let ch = or_else(channel, 0u8);
            let vel = or_else(velocity, 0u8);
            Some(
                dispatch_of(
                    note_off_message(note, vel),
                    field("NoteOff ch="@, ch as nat) + field(" note="@, note as nat) + field(
                        " vel="@,
                        vel as nat,
                    ),
                    count,
                    delay_ms,
                ),
            )
        },
        ActionModel::ControlChange { channel, controller, value, count, delay_ms } => {
            let ch = or_else(channel, 0u8);
            Some(
                dispatch_of(
                    cc_message(controller, value as i32),
                    field("ControlChange ch="@, ch as nat) + field(" ctrl="@, controller as nat)
                        + field(" val="@, value as nat),
                    count,
                    delay_ms,
                ),
            )
        },
        ActionModel::ProgramChange { channel, program, count, delay_ms } => {
            let ch = or_else(channel, 0u8);
            Some(
                dispatch_of(
                    program_change_message(program),
                    field("ProgramChange ch="@, ch as nat) + field(" prog="@, program as nat),
                    count,
                    delay_ms,
                ),
            )
        },
        ActionModel::ControlChangeFromAxis { .. } => None,
        ActionModel::Key { key } => Some(DispatchModel::PressKey { key: key_for_name(key) }),
        ActionModel::Rest { method, url, body } => Some(
            DispatchModel::Http { method: or_else(method, "POST"@), url, body: or_else(body, Seq::empty()) },
        ),
        ActionModel::Exec { cmd, args } => Some(
            DispatchModel::Run { cmd, args: or_else(args, Seq::empty()) },
        ),
    }
}

/// The OSC message that a dispatch sends, once or repeatedly.
pub open spec fn dispatched_message(d: Option<DispatchModel>) -> Option<OscMessageModel> {
    match d {
        Some(DispatchModel::Once { message, .. }) => Some(message),
        Some(DispatchModel::Repeat { message, .. }) => Some(message),
        _ => None,
    }
}

/// An OSC action sends the configured note, velocity, controller, value or
/// program: `/note/<n>/on` with the velocity (127 when absent),
/// `/note/<n>/off` with the velocity (0 when absent), `/cc/<c>` with the
/// value, `/program/<p>` with the program.
pub proof fn lemma_action_sends_configured_values(a: ActionModel)
    ensures
        a matches ActionModel::NoteOn { note, velocity, .. } ==> dispatched_message(action_dispatch(a))
            == Some(
            OscMessageModel {
                addr: "/note/"@ + nat_text(note as nat) + "/on"@,
                args: seq![OscArg::Int(match velocity { Some(v) => v as i32, None => 127i32 })],
            },
        ),
        a matches ActionModel::NoteOff { note, velocity, .. } ==> dispatched_message(action_dispatch(a))
            == Some(
            OscMessageModel {
                addr: "/note/"@ + nat_text(note as nat) + "/off"@,
                args: seq![OscArg::Int(match velocity { Some(v) => v as i32, None => 0i32 })],
            },
        ),
        a matches ActionModel::ControlChange { controller, value, .. } ==> dispatched_message(
            action_dispatch(a),
        ) == Some(
            OscMessageModel {
                addr: "/cc/"@ + nat_text(controller as nat),
                args: seq![OscArg::Int(value as i32)],
            },
        ),
        a matches ActionModel::ProgramChange { program, .. } ==> dispatched_message(action_dispatch(a))
            == Some(
            OscMessageModel {
                addr: "/program/"@ + nat_text(program as nat),
                args: seq![OscArg::Int(program as i32)],
            },
        ),
{
}

/// An OSC action is sent once when its count is absent, 0 or 1, and
/// otherwise `count` times with its delay (0 when absent).
pub proof fn lemma_action_repeats_count_times(a: ActionModel, count: Option<u8>, delay: Option<u64>)
    requires
        ({
            ||| (a matches ActionModel::NoteOn { count: c, delay_ms: d, .. } && c == count && d == delay)
            ||| (a matches ActionModel::NoteOff { count: c, delay_ms: d, .. } && c == count && d == delay)
            ||| (a matches ActionModel::ControlChange { count: c, delay_ms: d, .. } && c == count && d
                == delay)
            ||| (a matches ActionModel::ProgramChange { count: c, delay_ms: d, .. } && c == count && d
                == delay)
        }),
    ensures
        match count {
            Some(c) if c > 1 => action_dispatch(a) matches Some(DispatchModel::Repeat { times, delay_ms, .. })
                && times == c as nat && delay_ms == match delay {
                Some(d) => d,
                None => 0u64,
            },
            _ => action_dispatch(a) matches Some(DispatchModel::Once { .. }),
        },
{
}

/// The actions-log line of an OSC action sent once names the kind and the
/// values sent, in decimal, the defaults filled in.
pub proof fn lemma_action_log_line_names_what_was_sent(a: ActionModel)
    ensures
        a matches ActionModel::NoteOn { channel, note, velocity, count: None, .. } ==> action_dispatch(a)
            == Some(
            DispatchModel::Once {
                message: note_on_message(note, match velocity { Some(v) => v, None => 127u8 }),
                log_line: "NoteOn ch="@ + nat_text(match channel { Some(c) => c as nat, None => 0nat })
                    + " note="@ + nat_text(note as nat) + " vel="@ + nat_text(
                    match velocity { Some(v) => v as nat, None => 127nat },
                ),
            },
        ),
        a matches ActionModel::NoteOff { channel, note, velocity, count: None, .. } ==> action_dispatch(a)
            == Some(
            DispatchModel::Once {
                message: note_off_message(note, match velocity { Some(v) => v, None => 0u8 }),
                log_line: "NoteOff ch="@ + nat_text(match channel { Some(c) => c as nat, None => 0nat })
                    + " note="@ + nat_text(note as nat) + " vel="@ + nat_text(
                    match velocity { Some(v) => v as nat, None => 0nat },
                ),
            },
        ),
        a matches ActionModel::ControlChange { channel, controller, value, count: None, .. }
            ==> action_dispatch(a) == Some(
            DispatchModel::Once {
                message: cc_message(controller, value as i32),
                log_line: "ControlChange ch="@ + nat_text(
                    match channel { Some(c) => c as nat, None => 0nat },
                ) + " ctrl="@ + nat_text(controller as nat) + " val="@ + nat_text(value as nat),
            },
        ),
        a matches ActionModel::ProgramChange { channel, program, count: None, .. } ==> action_dispatch(a)
            == Some(
            DispatchModel::Once {
                message: program_change_message(program),
                log_line: "ProgramChange ch="@ + nat_text(
                    match channel { Some(c) => c as nat, None => 0nat },
                ) + " prog="@ + nat_text(program as nat),
            },
        ),
{
    assert(forall|x: Seq<char>, y: Seq<char>, z: Seq<char>| (x + y) + z =~= x + (y + z));
}

/// A key action selects the key its name names; an HTTP action requests its
/// URL with its method and body, `POST` and empty when absent; a command
/// runs with its arguments, none when absent; an axis-driven action
/// dispatches nothing by itself.
pub proof fn lemma_other_actions_dispatch_their_fields(a: ActionModel)
    ensures
        a matches ActionModel::Key { key } ==> action_dispatch(a) == Some(
            DispatchModel::PressKey { key: key_for_name(key) },
        ),
        a matches ActionModel::Rest { method, url, body } ==> action_dispatch(a) == Some(
            DispatchModel::Http {
                method: match method { Some(m) => m, None => "POST"@ },
                url,
                body: match body { Some(b) => b, None => Seq::empty() },
            },
        ),
        a matches ActionModel::Exec { cmd, args } ==> action_dispatch(a) == Some(
            DispatchModel::Run { cmd, args: match args { Some(v) => v, None => Seq::empty() } },
        ),
        a is ControlChangeFromAxis ==> action_dispatch(a) is None,
{
}

/// Appends `label` and the decimal text of `n`.
pub fn push_field(line: &mut String, label: &str, n: u64)
    ensures
        final(line)@ == old(line)@ + field(label@, n as nat),
{
    line.append(label);
    let digits = u64_text(n);
    line.append(digits.as_str());
    assert(final(line)@ =~= old(line)@ + field(label@, n as nat));
}

fn make_dispatch(message: OscMessage, log_line: String, count: Option<u8>, delay_ms: Option<u64>) -> (r:
    Dispatch)
    ensures
        r@ == dispatch_of(message@, log_line@, count, delay_ms),
{
    let times = match count {
        Some(c) => c,
        None => 1,
    };
    if times <= 1 {
        Dispatch::Once { message, log_line }
    } else {
        let delay = match delay_ms {
            Some(d) => d,
            None => 0,
        };
        Dispatch::Repeat { message, times: times as usize, delay_ms: delay }
    }
}

/// What executing `action` does: the message it sends, and whether it is
/// sent once (and logged) or repeated in the background.
pub fn execute_action(action: &Action) -> (r: Option<Dispatch>)
    ensures
        opt_view(r) == action_dispatch(action@),
{
    match action {
        Action::NoteOn { channel, note, velocity, count, delay_ms } => {
            let ch = match channel {
                Some(c) => *c,
                None => 0,
            };
            let vel = match velocity {
                Some(v) => *v,
                None => 127,
            };
            let mut line = String::new();
            push_field(&mut line, "NoteOn ch=", ch as u64);
            push_field(&mut line, " note=", *note as u64);
            push_field(&mut line, " vel=", vel as u64);
            assert(line@ =~= field("NoteOn ch="@, ch as nat) + field(" note="@, *note as nat)
                + field(" vel="@, vel as nat));
            Some(make_dispatch(send_note_on(ch, *note, vel), line, *count, *delay_ms))
        },
        Action::NoteOff { channel, note, velocity, count, delay_ms } => {
            let ch = match channel {
                Some(c) => *c,
                None => 0,
            };
            let vel = match velocity {
                Some(v) => *v,
                None => 0,
            };
            let mut line = String::new();
            push_field(&mut line, "NoteOff ch=", ch as u64);
            push_field(&mut line, " note=", *note as u64);
            push_field(&mut line, " vel=", vel as u64);
            assert(line@ =~= field("NoteOff ch="@, ch as nat) + field(" note="@, *note as nat)
                + field(" vel="@, vel as nat));
            Some(make_dispatch(send_note_off(ch, *note, vel), line, *count, *delay_ms))
        },
        Action::ControlChange { channel, controller, value, count, delay_ms } => {
            let ch = match channel {
                Some(c) => *c,
                None => 0,
            };
            let mut line = String::new();
            push_field(&mut line, "ControlChange ch=", ch as u64);
            push_field(&mut line, " ctrl=", *controller as u64);
            push_field(&mut line, " val=", *value as u64);
            assert(line@ =~= field("ControlChange ch="@, ch as nat) + field(
                " ctrl="@,
                *controller as nat,
            ) + field(" val="@, *value as nat));
            Some(
                make_dispatch(
                    send_control_change(ch, *controller, *value as i32),
                    line,
                    *count,
                    *delay_ms,
                ),
            )
        },
        Action::ProgramChange { channel, program, count, delay_ms } => {
            let ch = match channel {
                Some(c) => *c,
                None => 0,
            };
            let mut line = String::new();
            push_field(&mut line, "ProgramChange ch=", ch as u64);
            push_field(&mut line, " prog=", *program as u64);
            assert(line@ =~= field("ProgramChange ch="@, ch as nat) + field(
                " prog="@,
                *program as nat,
            ));
            Some(make_dispatch(send_program_change(ch, *program), line, *count, *delay_ms))
        },
        Action::ControlChangeFromAxis { .. } => None,
        Action::Key { key } => Some(Dispatch::PressKey { key: send_key(key.as_str()) }),
        Action::Rest { method, url, body } => {
            let method = match method {
                Some(m) => m.clone(),
                None => String::from_str("POST"),
            };
            let body = match body {
                Some(b) => b.clone(),
                None => String::new(),
            };
            Some(Dispatch::Http { method, url: url.clone(), body })
        },
        Action::Exec { cmd, args } => {
            let args = match args {
                Some(v) => clone_strings(v),
                None => Vec::new(),
            };
            assert(args@.len() == 0 ==> texts(args@) =~= Seq::<Seq<char>>::empty());
            Some(Dispatch::Run { cmd: cmd.clone(), args })
        },
    }
}

// ---------------------------------------------------------------------------
// The actions log
// ---------------------------------------------------------------------------

/// The directory of the actions log: `<home>/Library/Logs/joy2qlc`, with
/// `/tmp` for an unknown home directory.
pub open spec fn actions_log_dir_text(home: Option<Seq<char>>) -> Seq<char> {
    or_else(home, "/tmp"@) + "/Library/Logs/joy2qlc"@
}

/// The directory that holds the actions log, given the value of `HOME`.
pub fn actions_log_dir(home: Option<&str>) -> (r: String)
    ensures
        r@ == actions_log_dir_text(opt_view(home)),
{
    let mut r = match home {
        Some(h) => String::from_str(h),
        None => String::from_str("/tmp"),
    };
    r.append("/Library/Logs/joy2qlc");
    r
}

/// The actions log, `actions.log` in [`actions_log_dir`], given the value of
/// `HOME`.
pub fn actions_log_path(home: Option<&str>) -> (r: String)
    ensures
        r@ == actions_log_dir_text(opt_view(home)) + "/actions.log"@,
{
    let mut r = actions_log_dir(home);
    r.append("/actions.log");
    r
}

// ---------------------------------------------------------------------------
// Axis-driven control changes
// ---------------------------------------------------------------------------

/// Where the output range of an axis mapping comes from.
#[derive(Clone, Copy, Debug, PartialEq, Eq, Structural)]
pub enum OutputRange {
    /// The two-element `range` of the action, as floats.
    FromAction(F32Bits, F32Bits),
    /// The two-element `output_range` of the input, as integers.
    FromInput(i32, i32),
    /// No usable range was given: `-50.0 .. 50.0`.
    Default,
}

/// How an axis value becomes a control change; the arithmetic on the value
/// is done by the caller.
#[derive(Clone, Copy, Debug)]
pub enum AxisPlan {
    /// Send the clamped (and possibly negated) axis value itself as a float.
    Passthrough { channel: u8, controller: u8, invert: bool },
    /// Map the clamped (and possibly negated) value from the input range
    /// (`-1.0 .. 1.0` when absent) onto the output range.
    Scaled {
        channel: u8,
        controller: u8,
        invert: bool,
        input_range: Option<(F32Bits, F32Bits)>,
        output_range: OutputRange,
    },
}

/// The two ends of a two-element range; other lengths give none.
pub open spec fn pair_of<T>(v: Option<Seq<T>>) -> Option<(T, T)> {
    match v {
        Some(r) => if r.len() == 2 {
            Some((r[0], r[1]))
        } else {
            None
        },
        None => None,
    }
}

/// The plan of an axis mapping; mappings whose action is not axis-driven
/// have none. The channel defaults to 0, `invert` to false; the action's
/// own range comes before the input's output range.
pub open spec fn axis_plan(m: MappingModel) -> Option<AxisPlan> {
    match m.action {
        ActionModel::ControlChangeFromAxis { channel, controller, invert, range, .. } => {
            let ch = or_else(channel, 0u8);
            let inv = or_else(invert, false);
            match range {
                Some(ActionRangeModel::Passthrough) => Some(
                    AxisPlan::Passthrough { channel: ch, controller, invert: inv },
                ),
                _ => {
                    let from_action = match range {
                        Some(ActionRangeModel::Range(v)) => pair_of(Some(v)),
                        _ => None,
                    };
                    let out = match from_action {
                        Some((a, b)) => OutputRange::FromAction(a, b),
                        None => match pair_of(m.input.output_range) {
                            Some((a, b)) => OutputRange::FromInput(a, b),
                            None => OutputRange::Default,
                        },
                    };
                    Some(
                        AxisPlan::Scaled {
                            channel: ch,
                            controller,
                            invert: inv,
                            input_range: pair_of(m.input.input_range),
                            output_range: out,
                        },
                    )
                },
            }
        },
        _ => None,
    }
}

/// An axis-driven mapping is planned from its own fields: passthrough when
/// its range is `null`; otherwise scaled, onto the action's two-element range
/// if it has one, else onto the input's two-element `output_range`, else onto
/// the default; the input range is the input's two-element `input_range`, if
/// any. The channel defaults to 0 and `invert` to false. Other actions have
/// no plan.
pub proof fn lemma_axis_plan_chooses_the_configured_range(m: MappingModel)
    ensures
        !(m.action is ControlChangeFromAxis) ==> axis_plan(m) is None,
        m.action matches ActionModel::ControlChangeFromAxis { channel, controller, invert, range, .. }
            ==> {
            let ch = match channel {
                Some(c) => c,
                None => 0u8,
            };
            let inv = match invert {
                Some(x) => x,
                None => false,
            };
            let action_pair = range matches Some(ActionRangeModel::Range(r)) && r.len() == 2;
            let input_pair = m.input.output_range matches Some(o) && o.len() == 2;
            let in_range = match m.input.input_range {
                Some(v) => if v.len() == 2 {
                    Some((v[0], v[1]))
                } else {
                    None
                },
                None => None,
            };
            &&& range == Some(ActionRangeModel::Passthrough) ==> axis_plan(m) == Some(
                AxisPlan::Passthrough { channel: ch, controller, invert: inv },
            )
            &&& range != Some(ActionRangeModel::Passthrough) ==> (axis_plan(m) matches Some(
                AxisPlan::Scaled { channel: c2, controller: k2, invert: i2, input_range, output_range },
            ) && c2 == ch && k2 == controller && i2 == inv && input_range == in_range && (if action_pair {
                output_range == OutputRange::FromAction(
                    range->0->Range_0[0],
                    range->0->Range_0[1],
                )
            } else if input_pair {
                output_range == OutputRange::FromInput(
                    m.input.output_range->0[0],
                    m.input.output_range->0[1],
                )
            } else {
                output_range == OutputRange::Default
            }))
        },
{
}

fn pair_from<T: Copy>(v: &Option<Vec<T>>) -> (r: Option<(T, T)>)
    ensures
        r == pair_of(opt_view(*v)),
{
    match v {
        Some(r) => if r.len() == 2 {
            Some((r[0], r[1]))
        } else {
            None
        },
        None => None,
    }
}

/// How the axis mapping `mapping` turns an axis value into a control change.
pub fn plan_axis_mapping(mapping: &Mapping) -> (r: Option<AxisPlan>)
    ensures
        r == axis_plan(mapping@),
{
    match &mapping.action {
        Action::ControlChangeFromAxis { channel, controller, invert, range, .. } => {
            let ch = match channel {
                Some(c) => *c,
                None => 0,
            };
            let inv = match invert {
                Some(b) => *b,
                None => false,
            };
            match range {
                Some(ActionRange::Passthrough) => Some(
                    AxisPlan::Passthrough { channel: ch, controller: *controller, invert: inv },
                ),
                _ => {
                    let from_action = match range {
                        Some(ActionRange::Range(v)) => {
                            let w = Some(clone_vec(v));
                            pair_from(&w)
                        },
                        _ => None,
                    };
                    let out = match from_action {
                        Some((a, b)) => OutputRange::FromAction(a, b),
                        None => match pair_from(&mapping.input.output_range) {
                            Some((a, b)) => OutputRange::FromInput(a, b),
                            None => OutputRange::Default,
                        },
                    };
                    Some(
                        AxisPlan::Scaled {
                            channel: ch,
                            controller: *controller,
                            invert: inv,
                            input_range: pair_from(&mapping.input.input_range),
                            output_range: out,
                        },
                    )
                },
            }
        },
        _ => None,
    }
}

} // verus!
