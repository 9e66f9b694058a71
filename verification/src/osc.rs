//! The OSC messages the bridge sends to QLC+, and where it sends them.
//!
//! A message is an address and its arguments; encoding it to bytes and the
//! UDP socket belong to the program around the library. Incoming packets are
//! decoded here, into the line the status panel shows for them.
use vstd::prelude::*;
use vstd::string::StringExecFns;
use crate::config::opt_view;
use crate::text::{join, joined, nat_text, texts, u64_text};

verus! {

/// A 32-bit float carried by its IEEE-754 bit pattern (`f32::to_bits`). The
/// library moves such values from the configuration to the messages but never
/// computes with them.
pub type F32Bits = u32;

/// One OSC argument.
#[derive(Clone, Copy, Debug, PartialEq, Eq, Structural)]
pub enum OscArg {
    /// An OSC `i` (int32) argument.
    Int(i32),
    /// An OSC `f` (float32) argument whose value is this integer.
    IntAsFloat(i32),
    /// An OSC `f` (float32) argument, given by its bit pattern.
    Float(F32Bits),
    /// An OSC `N` (nil) argument.
    Nil,
}

/// An OSC message: an address pattern and its arguments.
#[derive(Debug)]
pub struct OscMessage {
    pub addr: String,
    pub args: Vec<OscArg>,
}

/// The mathematical value of an [`OscMessage`].
pub struct OscMessageModel {
    pub addr: Seq<char>,
    pub args: Seq<OscArg>,
}

impl View for OscMessage {
    type V = OscMessageModel;

    open spec fn view(&self) -> OscMessageModel {
        OscMessageModel { addr: self.addr@, args: self.args@ }
    }
}

impl OscMessage {
    pub fn clone_message(&self) -> (r: OscMessage)
        ensures
            r@ == self@,
    {
        let args = self.args.clone();
        assert(args@ =~= self.args@);
        OscMessage { addr: self.addr.clone(), args }
    }
}

/// The address `/cc/<controller>`.
pub open spec fn cc_addr(controller: u8) -> Seq<char> {
    "/cc/"@ + nat_text(controller as nat)
}

/// The argument that carries a control-change value: an int for values
/// from 0 up, a float for negative values (receivers such as QLC+ read
/// signed ranges from floats).
pub open spec fn cc_arg(value: i32) -> OscArg {
    if value < 0 {
        OscArg::IntAsFloat(value)
    } else {
        OscArg::Int(value)
    }
}

/// The message of a control change.
pub open spec fn cc_message(controller: u8, value: i32) -> OscMessageModel {
    OscMessageModel { addr: cc_addr(controller), args: seq![cc_arg(value)] }
}

/// The message of a Note On: `/note/<note>/on` with the velocity.
pub open spec fn note_on_message(note: u8, velocity: u8) -> OscMessageModel {
    OscMessageModel {
        addr: "/note/"@ + nat_text(note as nat) + "/on"@,
        args: seq![OscArg::Int(velocity as i32)],
    }
}

/// The message of a Note Off: `/note/<note>/off` with the velocity.
pub open spec fn note_off_message(note: u8, velocity: u8) -> OscMessageModel {
    OscMessageModel {
        addr: "/note/"@ + nat_text(note as nat) + "/off"@,
        args: seq![OscArg::Int(velocity as i32)],
    }
}

/// The message of a program change: `/program/<program>` with the program.
pub open spec fn program_change_message(program: u8) -> OscMessageModel {
    OscMessageModel {
        addr: "/program/"@ + nat_text(program as nat),
        args: seq![OscArg::Int(program as i32)],
    }
}

/// `prefix` followed by the decimal text of `n`.
fn with_number(prefix: &str, n: u64) -> (r: String)
    ensures
        r@ == prefix@ + nat_text(n as nat),
{
    let mut r = String::from_str(prefix);
    let digits = u64_text(n);
    r.append(digits.as_str());
    r
}

/// The message that sends a control change: address `/cc/<controller>`, one
/// argument carrying `value`. OSC has no channels; `_channel` is not sent.
pub fn send_control_change(_channel: u8, controller: u8, value: i32) -> (r: OscMessage)
    ensures
        r@ == cc_message(controller, value),
{
    let addr = with_number("/cc/", controller as u64);
    let arg = if value < 0 {
        OscArg::IntAsFloat(value)
    } else {
        OscArg::Int(value)
    };
    let args = vec![arg];
    assert(args@ =~= seq![cc_arg(value)]);
    OscMessage { addr, args }
}

/// The message that sends a Note On.
pub fn send_note_on(_channel: u8, note: u8, velocity: u8) -> (r: OscMessage)
    ensures
        r@ == note_on_message(note, velocity),
{
    let mut addr = with_number("/note/", note as u64);
    addr.append("/on");
    let args = vec![OscArg::Int(velocity as i32)];
    assert(args@ =~= seq![OscArg::Int(velocity as i32)]);
    OscMessage { addr, args }
}

/// The message that sends a Note Off.
pub fn send_note_off(_channel: u8, note: u8, velocity: u8) -> (r: OscMessage)
    ensures
        r@ == note_off_message(note, velocity),
{
    let mut addr = with_number("/note/", note as u64);
    addr.append("/off");
    let args = vec![OscArg::Int(velocity as i32)];
    assert(args@ =~= seq![OscArg::Int(velocity as i32)]);
    OscMessage { addr, args }
}

/// The message that sends a program change.
pub fn send_program_change(_channel: u8, program: u8) -> (r: OscMessage)
    ensures
        r@ == program_change_message(program),
{
    let addr = with_number("/program/", program as u64);
    let args = vec![OscArg::Int(program as i32)];
    assert(args@ =~= seq![OscArg::Int(program as i32)]);
    OscMessage { addr, args }
}

/// The message that sends a control change with a float argument (sign and
/// precision kept).
pub fn send_control_change_float(_channel: u8, controller: u8, value: F32Bits) -> (r: OscMessage)
    ensures
        r@ == (OscMessageModel { addr: cc_addr(controller), args: seq![OscArg::Float(value)] }),
{
    let addr = with_number("/cc/", controller as u64);
    let args = vec![OscArg::Float(value)];
    assert(args@ =~= seq![OscArg::Float(value)]);
    OscMessage { addr, args }
}

/// The message that sends a control change with an explicit OSC Nil.
pub fn send_control_change_nil(_channel: u8, controller: u8) -> (r: OscMessage)
    ensures
        r@ == (OscMessageModel { addr: cc_addr(controller), args: seq![OscArg::Nil] }),
{
    let addr = with_number("/cc/", controller as u64);
    let args = vec![OscArg::Nil];
    assert(args@ =~= seq![OscArg::Nil]);
    OscMessage { addr, args }
}

/// Where OSC messages go, such as `127.0.0.1:9000`.
pub struct OscTarget {
    pub dest: String,
}

impl OscTarget {
    /// The destination before [`init`] sets one: `127.0.0.1:9000`.
    pub fn new() -> (r: OscTarget)
        ensures
            r.dest@ == "127.0.0.1:9000"@,
    {
        OscTarget { dest: String::from_str("127.0.0.1:9000") }
    }
}

/// Records `dest` as the destination of the messages that follow.
pub fn init(target: &mut OscTarget, dest: &str)
    ensures
        final(target).dest@ == dest@,
{
    target.dest = String::from_str(dest);
}

/// The current destination.
pub fn destination(target: &OscTarget) -> (r: String)
    ensures
        r@ == target.dest@,
{
    target.dest.clone()
}

// ---------------------------------------------------------------------------
// Incoming packets
// ---------------------------------------------------------------------------

/// A decoded incoming OSC packet, as the status panel shows it: a message by
/// its address and the debug text of each argument, a bundle by the debug
/// text of its time tag and the number of its elements.
#[derive(Debug)]
pub enum Incoming {
    Message { addr: String, args: Vec<String> },
    Bundle { timetag: String, count: usize },
}

pub enum IncomingModel {
    Message { addr: Seq<char>, args: Seq<Seq<char>> },
    Bundle { timetag: Seq<char>, count: nat },
}

impl View for Incoming {
    type V = IncomingModel;

    open spec fn view(&self) -> IncomingModel {
        match self {
            Incoming::Message { addr, args } => IncomingModel::Message {
                addr: addr@,
                args: texts(args@),
            },
            Incoming::Bundle { timetag, count } => IncomingModel::Bundle {
                timetag: timetag@,
                count: *count as nat,
            },
        }
    }
}

/// What `rosc::decoder::decode_udp` makes of a datagram, as an [`Incoming`];
/// `None` when it reports an error.
pub uninterp spec fn osc_decoded(bytes: Seq<u8>) -> Option<IncomingModel>;

/// Decodes one datagram with `rosc::decoder::decode_udp`. The contract names
/// the result: it depends on the bytes alone. The argument texts and the time
/// tag are rosc's `Debug` output.
#[verifier::external_body]
fn decode_packet(bytes: &[u8]) -> (r: Option<Incoming>)
    ensures
        opt_view(r) == osc_decoded(bytes@),
{
    match rosc::decoder::decode_udp(bytes) {
        Ok((_, rosc::OscPacket::Message(m))) => Some(
            Incoming::Message { addr: m.addr, args: m.args.iter().map(|a| format!("{:?}", a)).collect() },
        ),
        Ok((_, rosc::OscPacket::Bundle(b))) => Some(
            Incoming::Bundle { timetag: format!("{:?}", b.timetag), count: b.content.len() },
        ),
        Err(_) => None,
    }
}

/// The status line for a decoded packet received from `from`:
/// `IN <addr> [<args, comma-separated>] from <from>` for a message,
/// `IN bundle @ <timetag> (<count> msgs) from <from>` for a bundle.
pub open spec fn incoming_text(p: IncomingModel, from: Seq<char>) -> Seq<char> {
    match p {
        IncomingModel::Message { addr, args } => "IN "@ + addr + " ["@ + joined(args, ", "@)
            + "] from "@ + from,
        IncomingModel::Bundle { timetag, count } => "IN bundle @ "@ + timetag + " ("@ + nat_text(
            count,
        ) + " msgs) from "@ + from,
    }
}

/// The status line for the decoded packet `p`, received from `from`.
pub fn incoming_text_of(p: &Incoming, from: &str) -> (r: String)
    ensures
        r@ == incoming_text(p@, from@),
{
    match p {
        Incoming::Message { addr, args } => {
            let mut r = String::from_str("IN ");
            r.append(addr.as_str());
            r.append(" [");
            let a = join(args, ", ");
            r.append(a.as_str());
            r.append("] from ");
            r.append(from);
            r
        },
        Incoming::Bundle { timetag, count } => {
            let mut r = String::from_str("IN bundle @ ");
            r.append(timetag.as_str());
            r.append(" (");
            let c = u64_text(*count as u64);
            r.append(c.as_str());
            r.append(" msgs) from ");
            r.append(from);
            r
        },
    }
}

/// The status line for the datagram `bytes` received from `from`; `None`
/// when it is no OSC packet.
pub fn incoming_line(bytes: &[u8], from: &str) -> (r: Option<String>)
    ensures
        opt_view(r) == match osc_decoded(bytes@) {
            Some(p) => Some(incoming_text(p, from@)),
            None => None,
        },
{
    match decode_packet(bytes) {
        Some(p) => Some(incoming_text_of(&p, from)),
        None => None,
    }
}

} // verus!
