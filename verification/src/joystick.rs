//! What joystick events do: the buttons held, the messages a button press or
//! release triggers, and which axis mappings an axis movement drives.
//!
//! Reading the device, the dead zone of the axes and the axis arithmetic
//! belong to the program around the library.
use vstd::prelude::*;
use vstd::string::StringExecFns;
use crate::config::{
    push_field, field, Action, ActionModel, Config, InitSpecModel, InitValue, InitValueModel, Mapping, MappingModel, ReleaseValue,
    action_of, axis_kind, button_kind, first_mapping_for, mappings_for, models, opt_view, or_else,
};
use crate::osc::{
    OscArg, OscMessage, OscMessageModel, cc_addr, cc_message, send_control_change,
    send_control_change_float, send_control_change_nil,
};
use crate::text::{u64_text, i64_text, int_text, nat_text, same_text};

verus! {

/// The joystick buttons currently held.
pub struct Joystick {
    pressed: Vec<String>,
}

impl View for Joystick {
    type V = Set<Seq<char>>;

    closed spec fn view(&self) -> Set<Seq<char>> {
        Set::new(
            |b: Seq<char>| exists|i: int| 0 <= i < self.pressed@.len() && #[trigger] self.pressed@[i]@ == b,
        )
    }
}

impl Joystick {
    /// No button held.
    pub fn new() -> (r: Joystick)
        ensures
            r@ == Set::<Seq<char>>::empty(),
    {
        let r = Joystick { pressed: Vec::new() };
        assert(r@ =~= Set::<Seq<char>>::empty());
        r
    }

    /// Whether `button` is held.
    pub fn is_pressed(&self, button: &str) -> (r: bool)
        ensures
            r == self@.contains(button@),
    {
        let mut i: usize = 0;
        while i < self.pressed.len()
            invariant
                i <= self.pressed@.len(),
                forall|j: int| 0 <= j < i ==> #[trigger] self.pressed@[j]@ != button@,
            decreases self.pressed@.len() - i,
        {
            if same_text(&self.pressed[i], button) {
                return true;
            }
            i = i + 1;
        }
        false
    }

    /// Records `button` as held.
    pub fn press(&mut self, button: &str)
        ensures
            final(self)@ == old(self)@.insert(button@),
    {
        if !self.is_pressed(button) {
            let ghost prev = self.pressed@;
            let b = String::from_str(button);
            self.pressed.push(b);
            proof {
                assert forall|x: Seq<char>| #[trigger] self@.contains(x) == old(self)@.insert(
                    button@,
                ).contains(x) by {
                    if old(self)@.contains(x) {
                        let i = choose|i: int| 0 <= i < prev.len() && #[trigger] prev[i]@ == x;
                        assert(self.pressed@[i] == prev[i]);
                    }
                    if x == button@ {
                        assert(self.pressed@[prev.len() as int]@ == x);
                    }
                    if self@.contains(x) {
                        let i = choose|i: int|
                            0 <= i < self.pressed@.len() && #[trigger] self.pressed@[i]@ == x;
                        if i < prev.len() {
                            assert(prev[i] == self.pressed@[i]);
                        }
                    }
                }
                assert(self@ =~= old(self)@.insert(button@));
            }
        } else {
            assert(old(self)@.insert(button@) =~= old(self)@);
        }
    }

    /// Records `button` as no longer held.
    pub fn release(&mut self, button: &str)
        ensures
            final(self)@ == old(self)@.remove(button@),
    {
        let ghost prev = self.pressed@;
        let mut kept: Vec<String> = Vec::new();
        let mut i: usize = 0;
        while i < self.pressed.len()
            invariant
                self.pressed@ == prev,
                i <= prev.len(),
                forall|k: int| 0 <= k < kept@.len() ==> #[trigger] kept@[k]@ != button@,
                forall|k: int|
                    0 <= k < kept@.len() ==> exists|j: int|
                        0 <= j < i && #[trigger] prev[j]@ == (#[trigger] kept@[k])@,
                forall|j: int|
                    0 <= j < i && #[trigger] prev[j]@ != button@ ==> exists|k: int|
                        0 <= k < kept@.len() && #[trigger] kept@[k]@ == prev[j]@,
            decreases prev.len() - i,
        {
            if !same_text(&self.pressed[i], button) {
                let ghost before = kept@;
                let c = self.pressed[i].clone();
                kept.push(c);
                proof {
                    assert(kept@[before.len() as int]@ == prev[i as int]@);
                    assert forall|k: int| 0 <= k < kept@.len() implies exists|j: int|
                        0 <= j < i + 1 && #[trigger] prev[j]@ == (#[trigger] kept@[k])@ by {
                        if k < before.len() {
                            assert(kept@[k] == before[k]);
                        } else {
                            assert(prev[i as int]@ == kept@[k]@);
                        }
                    }
                    assert forall|j: int|
                        0 <= j < i + 1 && #[trigger] prev[j]@ != button@ implies exists|k: int|
                        0 <= k < kept@.len() && #[trigger] kept@[k]@ == prev[j]@ by {
                        if j < i {
                            let k = choose|k: int|
                                0 <= k < before.len() && #[trigger] before[k]@ == prev[j]@;
                            assert(kept@[k] == before[k]);
                        } else {
                            assert(kept@[before.len() as int]@ == prev[j]@);
                        }
                    }
                }
            }
            i = i + 1;
        }
        self.pressed = kept;
        proof {
            assert forall|x: Seq<char>| #[trigger] self@.contains(x) == old(self)@.remove(
                button@,
            ).contains(x) by {
                if self@.contains(x) {
                    let k = choose|k: int|
                        0 <= k < self.pressed@.len() && #[trigger] self.pressed@[k]@ == x;
                    let j = choose|j: int|
                        0 <= j < prev.len() && #[trigger] prev[j]@ == (#[trigger] self.pressed@[k])@;
                    assert(old(self)@.contains(x));
                }
                if old(self)@.remove(button@).contains(x) {
                    let j = choose|j: int| 0 <= j < prev.len() && #[trigger] prev[j]@ == x;
                    assert(prev[j]@ != button@);
                }
            }
            assert(self@ =~= old(self)@.remove(button@));
        }
    }
}

// ---------------------------------------------------------------------------
// Gating of axis mappings
// ---------------------------------------------------------------------------

/// Whether an axis mapping is active with the buttons `held`: it has no
/// gating button, or its gating button is held.
pub open spec fn gate_open(held: Set<Seq<char>>, m: MappingModel) -> bool {
    match m.input.while_button {
        Some(b) => held.contains(b),
        None => true,
    }
}

/// The mappings an axis movement drives: the mappings for the axis, in file
/// order, whose gate is open.
pub open spec fn active_mappings(held: Set<Seq<char>>, ms: Seq<MappingModel>, axis: Seq<char>) -> Seq<
    MappingModel,
> {
    mappings_for(ms, axis_kind(), axis).filter(|m: MappingModel| gate_open(held, m))
}

/// Pressing the gating button of a mapping opens its gate.
pub proof fn lemma_press_opens_gate(held: Set<Seq<char>>, b: Seq<char>, m: MappingModel)
    requires
        m.input.while_button == Some(b),
    ensures
        gate_open(held.insert(b), m),
{
}

/// Releasing the gating button of a mapping closes its gate.
pub proof fn lemma_release_closes_gate(held: Set<Seq<char>>, b: Seq<char>, m: MappingModel)
    requires
        m.input.while_button == Some(b),
    ensures
        !gate_open(held.remove(b), m),
{
}

/// A mapping without a gating button is active whatever is held.
pub proof fn lemma_ungated_always_open(held: Set<Seq<char>>, m: MappingModel)
    requires
        m.input.while_button is None,
    ensures
        gate_open(held, m),
{
}

/// Releasing a button that was not held before its press leaves the held
/// buttons as they were.
pub proof fn lemma_release_undoes_press(held: Set<Seq<char>>, b: Seq<char>)
    requires
        !held.contains(b),
    ensures
        held.insert(b).remove(b) == held,
{
    assert(held.insert(b).remove(b) =~= held);
}

/// Pressing or releasing one button leaves the others as they were.
pub proof fn lemma_other_buttons_unchanged(held: Set<Seq<char>>, b: Seq<char>, c: Seq<char>)
    requires
        b != c,
    ensures
        held.insert(b).contains(c) == held.contains(c),
        held.remove(b).contains(c) == held.contains(c),
{
}

/// An axis movement drives exactly the mappings for that axis whose gate is
/// open: nothing else, and none of those is left out.
pub proof fn lemma_active_mappings_are_the_open_ones(
    held: Set<Seq<char>>,
    ms: Seq<MappingModel>,
    axis: Seq<char>,
    m: MappingModel,
)
    ensures
        active_mappings(held, ms, axis).contains(m) <==> (ms.contains(m) && crate::config::has_input(
            m,
            axis_kind(),
            axis,
        ) && gate_open(held, m)),
{
    let p = |x: MappingModel| crate::config::has_input(x, axis_kind(), axis);
    let q = |x: MappingModel| gate_open(held, x);
    let all = ms.filter(p);
    if active_mappings(held, ms, axis).contains(m) {
        all.lemma_filter_contains_rev(q, m);
        ms.lemma_filter_contains_rev(p, m);
        let i = choose|i: int| 0 <= i < all.filter(q).len() && all.filter(q)[i] == m;
        all.lemma_filter_pred(q, i);
        let j = choose|j: int| 0 <= j < all.len() && all[j] == m;
        ms.lemma_filter_pred(p, j);
    }
    if ms.contains(m) && p(m) && q(m) {
        let i = choose|i: int| 0 <= i < ms.len() && ms[i] == m;
        ms.lemma_filter_contains(p, i);
        let j = choose|j: int| 0 <= j < all.len() && all[j] == m;
        all.lemma_filter_contains(q, j);
    }
}

/// Releasing a button sends values only for axis mappings that button
/// gates, and for every such mapping that drives a control change from the
/// axis.
pub proof fn lemma_release_sends_exactly_for_gated(ms: Seq<MappingModel>, b: Seq<char>, m: MappingModel)
    ensures
        ms.filter(|x: MappingModel| sends_release(x, b)).contains(m) <==> (ms.contains(m)
            && sends_release(m, b)),
{
    let p = |x: MappingModel| sends_release(x, b);
    if ms.filter(p).contains(m) {
        ms.lemma_filter_contains_rev(p, m);
        let i = choose|i: int| 0 <= i < ms.filter(p).len() && ms.filter(p)[i] == m;
        ms.lemma_filter_pred(p, i);
    }
    if ms.contains(m) && p(m) {
        let i = choose|i: int| 0 <= i < ms.len() && ms[i] == m;
        ms.lemma_filter_contains(p, i);
    }
}

// ---------------------------------------------------------------------------
// Button presses: init messages
// ---------------------------------------------------------------------------

/// Control-change values to send, one after the other, when the gating
/// button of an axis mapping goes down.
#[derive(Debug)]
pub struct InitBurst {
    /// The axis of the mapping.
    pub axis: String,
    pub channel: u8,
    pub controller: u8,
    pub values: Vec<i32>,
    /// Pause after each value when not 0.
    pub delay_ms: u64,
}

pub struct InitBurstModel {
    pub axis: Seq<char>,
    pub channel: u8,
    pub controller: u8,
    pub values: Seq<i32>,
    pub delay_ms: u64,
}

impl View for InitBurst {
    type V = InitBurstModel;

    open spec fn view(&self) -> InitBurstModel {
        InitBurstModel {
            axis: self.axis@,
            channel: self.channel,
            controller: self.controller,
            values: self.values@,
            delay_ms: self.delay_ms,
        }
    }
}

pub open spec fn burst_models(bs: Seq<InitBurst>) -> Seq<InitBurstModel> {
    bs.map_values(|b: InitBurst| b@)
}

/// Whether an axis mapping is gated by the button `b`.
pub open spec fn gated_by(m: MappingModel, b: Seq<char>) -> bool {
    m.input.typ == axis_kind() && m.input.while_button == Some(b)
}

/// The init kinds that send control changes.
pub open spec fn init_kind_sends(t: Seq<char>) -> bool {
    t == "control_change_from_axis"@ || t == "control_change"@
}

/// The values of an init table: none, one, or a list.
pub open spec fn init_values(v: Option<InitValueModel>) -> Seq<i32> {
    match v {
        None => Seq::empty(),
        Some(InitValueModel::Int(x)) => seq![x],
        Some(InitValueModel::IntList(vs)) => vs,
    }
}

/// Whether pressing `b` sends the init values of mapping `m`: `m` is an axis
/// mapping gated by `b` whose init table has a control-change kind, a
/// controller and at least one value.
pub open spec fn sends_init(m: MappingModel, b: Seq<char>) -> bool {
    &&& gated_by(m, b)
    &&& m.init is Some
    &&& init_kind_sends(m.init->0.typ)
    &&& m.init->0.controller is Some
    &&& init_values(m.init->0.value).len() > 0
}

/// The values sent: the first `count` values, or all of them without a
/// count.
pub open spec fn burst_values(values: Seq<i32>, count: Option<u8>) -> Seq<i32> {
    match count {
        Some(c) => if (c as int) < values.len() {
            values.take(c as int)
        } else {
            values
        },
        None => values,
    }
}

/// The burst that the init table of `m` sends; channel and delay default to 0.
pub open spec fn burst_of(m: MappingModel) -> InitBurstModel {
    let i = m.init->0;
    InitBurstModel {
        axis: m.input.code,
        channel: or_else(i.channel, 0u8),
        controller: i.controller->0,
        values: burst_values(init_values(i.value), i.count),
        delay_ms: or_else(i.delay_ms, 0u64),
    }
}

/// The bursts that pressing `b` starts, in file order.
pub open spec fn init_bursts(ms: Seq<MappingModel>, b: Seq<char>) -> Seq<InitBurstModel> {
    ms.filter(|m: MappingModel| sends_init(m, b)).map_values(|m: MappingModel| burst_of(m))
}

/// The actions-log line for one init value `v` of burst `b`.
pub open spec fn init_log_text(b: InitBurstModel, v: i32) -> Seq<char> {
    "InitControlChange axis="@ + b.axis + field(" ch="@, b.channel as nat) + field(
        " ctrl="@,
        b.controller as nat,
    ) + " val="@ + int_text(v as int)
}

/// The status-panel line for one init value `v` sent to `controller`.
pub open spec fn init_status_text(controller: u8, v: i32) -> Seq<char> {
    "Init: sent /cc/"@ + nat_text(controller as nat) + " "@ + int_text(v as int)
}

/// The actions-log line for sending the init value `v` of `b`.
pub fn init_log_line(b: &InitBurst, v: i32) -> (r: String)
    ensures
        r@ == init_log_text(b@, v),
{
    let mut r = String::from_str("InitControlChange axis=");
    r.append(b.axis.as_str());
    push_field(&mut r, " ch=", b.channel as u64);
    push_field(&mut r, " ctrl=", b.controller as u64);
    r.append(" val=");
    let t = i64_text(v as i64);
    r.append(t.as_str());
    r
}

/// The status-panel line for sending the init value `v` to `controller`.
pub fn init_status_line(controller: u8, v: i32) -> (r: String)
    ensures
        r@ == init_status_text(controller, v),
{
    let mut r = String::from_str("Init: sent /cc/");
    let c = u64_text(controller as u64);
    r.append(c.as_str());
    r.append(" ");
    let t = i64_text(v as i64);
    r.append(t.as_str());
    r
}

/// What a button press triggers.
#[derive(Debug)]
pub struct PressOutcome {
    /// The action of the first mapping for the button, to execute.
    pub action: Option<Action>,
    /// Init values of the axis mappings the button gates, each to send from
    /// a background thread.
    pub init_bursts: Vec<InitBurst>,
}

/// The values of an init table.
fn values_of(v: &Option<InitValue>) -> (r: Vec<i32>)
    ensures
        r@ == init_values(opt_view(*v)),
{
    match v {
        None => Vec::new(),
        Some(InitValue::Int(x)) => {
            let r = vec![*x];
            assert(r@ =~= seq![*x]);
            r
        },
        Some(InitValue::IntList(vs)) => {
            let mut r: Vec<i32> = Vec::new();
            let mut i: usize = 0;
            while i < vs.len()
                invariant
                    i <= vs@.len(),
                    r@ == vs@.take(i as int),
                decreases vs@.len() - i,
            {
                r.push(vs[i]);
                i = i + 1;
                assert(r@ =~= vs@.take(i as int));
            }
            assert(vs@.take(vs@.len() as int) =~= vs@);
            r
        },
    }
}

/// The first `count` values (all of them without a count).
fn take_values(values: Vec<i32>, count: Option<u8>) -> (r: Vec<i32>)
    ensures
        r@ == burst_values(values@, count),
{
    match count {
        Some(c) => {
            if (c as usize) < values.len() {
                let mut r: Vec<i32> = Vec::new();
                let mut i: usize = 0;
                while i < c as usize
                    invariant
                        (c as int) < values@.len(),
                        i <= c,
                        r@ == values@.take(i as int),
                    decreases c - i,
                {
                    r.push(values[i]);
                    i = i + 1;
                    assert(r@ =~= values@.take(i as int));
                }
                r
            } else {
                values
            }
        },
        None => values,
    }
}

/// The burst of a mapping whose init values pressing `button` sends.
fn init_burst(m: &Mapping, button: &str) -> (r: Option<InitBurst>)
    ensures
        match r {
            Some(b) => sends_init(m@, button@) && b@ == burst_of(m@),
            None => !sends_init(m@, button@),
        },
{
    if !same_text(&m.input.typ, "axis") {
        return None;
    }
    let gated = match &m.input.while_button {
        Some(req) => same_text(req, button),
        None => false,
    };
    if !gated {
        return None;
    }
    match &m.init {
        Some(init) => {
            if !(same_text(&init.typ, "control_change_from_axis") || same_text(
                &init.typ,
                "control_change",
            )) {
                return None;
            }
            match init.controller {
                Some(ctrl) => {
                    let values = values_of(&init.value);
                    if values.len() == 0 {
                        return None;
                    }
                    let ch = match init.channel {
                        Some(c) => c,
                        None => 0,
                    };
                    let delay = match init.delay_ms {
                        Some(d) => d,
                        None => 0,
                    };
                    Some(
                        InitBurst {
                            axis: m.input.code.clone(),
                            channel: ch,
                            controller: ctrl,
                            values: take_values(values, init.count),
                            delay_ms: delay,
                        },
                    )
                },
                None => None,
            }
        },
        None => None,
    }
}

// ---------------------------------------------------------------------------
// Button releases
// ---------------------------------------------------------------------------

/// A value to send, on release of a gating button, for an axis mapping.
#[derive(Debug)]
pub struct ReleaseSend {
    /// The axis of the mapping.
    pub axis: String,
    pub channel: u8,
    pub controller: u8,
    pub value: ReleaseValue,
}

pub struct ReleaseSendModel {
    pub axis: Seq<char>,
    pub channel: u8,
    pub controller: u8,
    pub value: ReleaseValue,
}

impl View for ReleaseSend {
    type V = ReleaseSendModel;

    open spec fn view(&self) -> ReleaseSendModel {
        ReleaseSendModel {
            axis: self.axis@,
            channel: self.channel,
            controller: self.controller,
            value: self.value,
        }
    }
}

pub open spec fn release_models(rs: Seq<ReleaseSend>) -> Seq<ReleaseSendModel> {
    rs.map_values(|r: ReleaseSend| r@)
}

/// Whether releasing `b` sends a value for mapping `m`: `m` is an axis
/// mapping gated by `b`, driving a control change from the axis.
pub open spec fn sends_release(m: MappingModel, b: Seq<char>) -> bool {
    &&& gated_by(m, b)
    &&& m.action is ControlChangeFromAxis
}

/// The value sent for `m`: its release value, the integer 0 when it has
/// none; the channel defaults to 0.
pub open spec fn release_of(m: MappingModel) -> ReleaseSendModel {
    match m.action {
        ActionModel::ControlChangeFromAxis { channel, controller, .. } => ReleaseSendModel {
            axis: m.input.code,
            channel: or_else(channel, 0u8),
            controller,
            value: or_else(m.input.release_value, ReleaseValue::Int(0)),
        },
        _ => ReleaseSendModel {
            axis: m.input.code,
            channel: 0,
            controller: 0,
            value: ReleaseValue::SendNil,
        },
    }
}

/// The values that releasing `b` sends, in file order.
pub open spec fn release_sends(ms: Seq<MappingModel>, b: Seq<char>) -> Seq<ReleaseSendModel> {
    ms.filter(|m: MappingModel| sends_release(m, b)).map_values(|m: MappingModel| release_of(m))
}

/// The message that carries a release value: an int or negative int as a
/// control change, a float as a float control change, nil as an OSC Nil.
pub open spec fn release_message_model(r: ReleaseSendModel) -> OscMessageModel {
    match r.value {
        ReleaseValue::Int(v) => cc_message(r.controller, v),
        ReleaseValue::Float(f) => OscMessageModel {
            addr: cc_addr(r.controller),
            args: seq![OscArg::Float(f)],
        },
        ReleaseValue::SendNil => OscMessageModel {
            addr: cc_addr(r.controller),
            args: seq![OscArg::Nil],
        },
    }
}

/// The message that sends a release value.
pub fn release_message(r: &ReleaseSend) -> (m: OscMessage)
    ensures
        m@ == release_message_model(r@),
{
    match r.value {
        ReleaseValue::Int(v) => send_control_change(r.channel, r.controller, v),
        ReleaseValue::Float(f) => send_control_change_float(r.channel, r.controller, f),
        ReleaseValue::SendNil => send_control_change_nil(r.channel, r.controller),
    }
}

/// The value that releasing `button` sends for mapping `m`, if any.
fn release_for(m: &Mapping, button: &str) -> (r: Option<ReleaseSend>)
    ensures
        match r {
            Some(s) => sends_release(m@, button@) && s@ == release_of(m@),
            None => !sends_release(m@, button@),
        },
{
    if !same_text(&m.input.typ, "axis") {
        return None;
    }
    let gated = match &m.input.while_button {
        Some(req) => same_text(req, button),
        None => false,
    };
    if !gated {
        return None;
    }
    match &m.action {
        Action::ControlChangeFromAxis { channel, controller, .. } => {
            let ch = match channel {
                Some(c) => *c,
                None => 0,
            };
            let v = match m.input.release_value {
                Some(v) => v,
                None => ReleaseValue::Int(0),
            };
            Some(
                ReleaseSend {
                    axis: m.input.code.clone(),
                    channel: ch,
                    controller: *controller,
                    value: v,
                },
            )
        },
        _ => None,
    }
}

/// Pressing `b` with one axis mapping gated by `b`, whose init table has a
/// control-change kind, controller `k` and the values `vs` (a list, or one
/// value), starts one burst for that axis: the first `count` values, all of
/// them when the count is absent or at least their number.
pub proof fn lemma_press_sends_first_count_values(
    m: MappingModel,
    b: Seq<char>,
    i: InitSpecModel,
    k: u8,
    vs: Seq<i32>,
)
    requires
        m.input.typ == "axis"@,
        m.input.while_button == Some(b),
        m.init == Some(i),
        i.typ == "control_change"@ || i.typ == "control_change_from_axis"@,
        i.controller == Some(k),
        i.value == Some(InitValueModel::IntList(vs)) || (vs.len() == 1 && i.value == Some(
            InitValueModel::Int(vs[0]),
        )),
        vs.len() > 0,
    ensures
        init_bursts(seq![m], b) == seq![
            InitBurstModel {
                axis: m.input.code,
                channel: match i.channel {
                    Some(c) => c,
                    None => 0u8,
                },
                controller: k,
                values: match i.count {
                    Some(c) => vs.take(if (c as int) < vs.len() { c as int } else { vs.len() as int }),
                    None => vs,
                },
                delay_ms: match i.delay_ms {
                    Some(d) => d,
                    None => 0u64,
                },
            },
        ],
        forall|c: u8| i.count == Some(c) && c > 0 ==> init_bursts(seq![m], b)[0].values.len() > 0,
{
    reveal_with_fuel(Seq::filter, 2);
    let p = |x: MappingModel| sends_init(x, b);
    assert(p(m));
    if let InitValueModel::Int(x) = i.value->0 {
        assert(seq![x] =~= vs);
    }
    assert(seq![m].filter(p) =~= seq![m]);
    assert(vs.take(vs.len() as int) =~= vs);
}

/// Pressing `b` starts no burst for a mapping that `b` does not gate.
pub proof fn lemma_press_of_other_button_sends_no_init(m: MappingModel, b: Seq<char>)
    requires
        m.input.while_button != Some(b),
    ensures
        init_bursts(seq![m], b).len() == 0,
{
    reveal_with_fuel(Seq::filter, 2);
    let p = |x: MappingModel| sends_init(x, b);
    assert(seq![m].filter(p) =~= Seq::<MappingModel>::empty());
}

/// The bursts of a configuration are those of its parts, in file order.
pub proof fn lemma_init_bursts_follow_file_order(ms1: Seq<MappingModel>, ms2: Seq<MappingModel>, b: Seq<char>)
    ensures
        init_bursts(ms1 + ms2, b) == init_bursts(ms1, b) + init_bursts(ms2, b),
{
    let p = |x: MappingModel| sends_init(x, b);
    let f = |x: MappingModel| burst_of(x);
    Seq::filter_distributes_over_add(ms1, ms2, p);
    assert((ms1 + ms2).filter(p) == ms1.filter(p) + ms2.filter(p));
    assert((ms1.filter(p) + ms2.filter(p)).map_values(f) =~= ms1.filter(p).map_values(f) + ms2.filter(
        p,
    ).map_values(f));
}

/// Releasing the gating button of an axis-driven mapping without a release
/// value sends the integer 0 for it.
pub proof fn lemma_release_value_defaults_to_zero(m: MappingModel, b: Seq<char>)
    requires
        gated_by(m, b),
        m.action is ControlChangeFromAxis,
        m.input.release_value is None,
    ensures
        sends_release(m, b),
        release_of(m).value == ReleaseValue::Int(0),
        release_message_model(release_of(m)) == cc_message(release_of(m).controller, 0),
{
}

// ---------------------------------------------------------------------------
// Events
// ---------------------------------------------------------------------------

impl Joystick {
    /// A button goes down: it is held from now on; the action of its first
    /// button mapping is to be executed, and the init values of the axis
    /// mappings it gates are to be sent.
    pub fn on_button_pressed(&mut self, cfg: &Config, button: &str) -> (r: PressOutcome)
        ensures
            final(self)@ == old(self)@.insert(button@),
            opt_view(r.action) == action_of(first_mapping_for(cfg@, button_kind(), button@)),
            burst_models(r.init_bursts@) == init_bursts(cfg@, button@),
    {
        self.press(button);
        let action = cfg.find_action_for_button(button);
        let ghost p = |m: MappingModel| sends_init(m, button@);
        let ghost f = |m: MappingModel| burst_of(m);
        let n = cfg.mappings.len();
        let mut bursts: Vec<InitBurst> = Vec::new();
        let mut i: usize = 0;
        while i < n
            invariant
                n == cfg@.len(),
                i <= n,
                p == (|m: MappingModel| sends_init(m, button@)),
                f == (|m: MappingModel| burst_of(m)),
                burst_models(bursts@) == cfg@.take(i as int).filter(p).map_values(f),
            decreases n - i,
        {
            let ghost prev = bursts@;
            let ghost before = cfg@.take(i as int).filter(p);
            proof {
                reveal(Seq::filter);
                assert(cfg@.take(i + 1).drop_last() =~= cfg@.take(i as int));
                assert(cfg@.take(i + 1).last() == cfg.mappings@[i as int]@);
            }
            match init_burst(&cfg.mappings[i], button) {
                Some(b) => {
                    bursts.push(b);
                    proof {
                        assert(cfg@.take(i + 1).filter(p) == before.push(cfg@[i as int]));
                        assert(burst_models(bursts@) =~= burst_models(prev).push(b@));
                        assert(before.push(cfg@[i as int]).map_values(f) =~= before.map_values(
                            f,
                        ).push(f(cfg@[i as int])));
                    }
                },
                None => {
                    assert(cfg@.take(i + 1).filter(p) == before);
                },
            }
            i = i + 1;
        }
        assert(cfg@.take(n as int) =~= cfg@);
        PressOutcome { action, init_bursts: bursts }
    }

    /// A button goes up: it is no longer held, and the release values of the
    /// axis mappings it gates are to be sent.
    pub fn on_button_released(&mut self, cfg: &Config, button: &str) -> (r: Vec<ReleaseSend>)
        ensures
            final(self)@ == old(self)@.remove(button@),
            release_models(r@) == release_sends(cfg@, button@),
    {
        self.release(button);
        let ghost p = |m: MappingModel| sends_release(m, button@);
        let ghost f = |m: MappingModel| release_of(m);
        let n = cfg.mappings.len();
        let mut sends: Vec<ReleaseSend> = Vec::new();
        let mut i: usize = 0;
        while i < n
            invariant
                n == cfg@.len(),
                i <= n,
                p == (|m: MappingModel| sends_release(m, button@)),
                f == (|m: MappingModel| release_of(m)),
                release_models(sends@) == cfg@.take(i as int).filter(p).map_values(f),
            decreases n - i,
        {
            let ghost prev = sends@;
            let ghost before = cfg@.take(i as int).filter(p);
            proof {
                reveal(Seq::filter);
                assert(cfg@.take(i + 1).drop_last() =~= cfg@.take(i as int));
                assert(cfg@.take(i + 1).last() == cfg.mappings@[i as int]@);
            }
            match release_for(&cfg.mappings[i], button) {
                Some(s) => {
                    sends.push(s);
                    proof {
                        assert(cfg@.take(i + 1).filter(p) == before.push(cfg@[i as int]));
                        assert(release_models(sends@) =~= release_models(prev).push(s@));
                        assert(before.push(cfg@[i as int]).map_values(f) =~= before.map_values(
                            f,
                        ).push(f(cfg@[i as int])));
                    }
                },
                None => {
                    assert(cfg@.take(i + 1).filter(p) == before);
                },
            }
            i = i + 1;
        }
        assert(cfg@.take(n as int) =~= cfg@);
        sends
    }

    /// The mappings an axis movement drives: those for the axis whose gating
    /// button, if any, is held.
    pub fn active_axis_mappings(&self, cfg: &Config, axis_name: &str) -> (r: Vec<Mapping>)
        ensures
            models(r@) == active_mappings(self@, cfg@, axis_name@),
    {
        let all = cfg.find_mappings_for_axis(axis_name);
        let ghost ms = models(all@);
        let ghost p = |m: MappingModel| gate_open(self@, m);
        let n = all.len();
        let mut out: Vec<Mapping> = Vec::new();
        let mut i: usize = 0;
        while i < n
            invariant
                n == all@.len(),
                i <= n,
                ms == models(all@),
                p == (|m: MappingModel| gate_open(self@, m)),
                models(out@) == ms.take(i as int).filter(p),
            decreases n - i,
        {
            let m = &all[i];
            let ghost prev = out@;
            proof {
                reveal(Seq::filter);
                assert(ms.take(i + 1).drop_last() =~= ms.take(i as int));
                assert(ms.take(i + 1).last() == m@);
            }
            let open = match &m.input.while_button {
                Some(req) => self.is_pressed(req.as_str()),
                None => true,
            };
            if open {
                let c = m.clone();
                out.push(c);
                assert(models(out@) =~= models(prev).push(c@));
            }
            i = i + 1;
        }
        assert(ms.take(n as int) =~= ms);
        out
    }
}

} // verus!
