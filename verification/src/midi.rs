//! The MIDI channel messages the bridge can send, as the bytes that go on the
//! wire. Opening ports and writing to them belongs to the program around the
//! library.
use vstd::prelude::*;
use vstd::string::StringExecFns;

verus! {

/// A MIDI status byte: the message kind in the high nibble, the channel
/// (taken modulo 16) in the low one.
pub open spec fn status_byte(kind: u8, channel: u8) -> u8 {
    (kind + channel % 16) as u8
}

/// `kind | (channel & 0x0f)` for a kind with a clear low nibble.
fn status(kind: u8, channel: u8) -> (r: u8)
    requires
        kind % 16 == 0,
    ensures
        r == status_byte(kind, channel),
{
    let r = kind | (channel & 0x0f);
    assert(kind % 16 == 0 ==> (kind | (channel & 0x0f)) == kind + channel % 16) by (bit_vector);
    r
}

/// The bytes of a Note On: `0x9n`, note, velocity.
pub fn send_note_on(channel: u8, note: u8, velocity: u8) -> (r: Vec<u8>)
    ensures
        r@ == seq![status_byte(0x90, channel), note, velocity],
{
    let r = vec![status(0x90, channel), note, velocity];
    assert(r@ =~= seq![status_byte(0x90, channel), note, velocity]);
    r
}

/// The bytes of a Note Off: `0x8n`, note, velocity.
pub fn send_note_off(channel: u8, note: u8, velocity: u8) -> (r: Vec<u8>)
    ensures
        r@ == seq![status_byte(0x80, channel), note, velocity],
{
    let r = vec![status(0x80, channel), note, velocity];
    assert(r@ =~= seq![status_byte(0x80, channel), note, velocity]);
    r
}

/// The bytes of a control change: `0xBn`, controller, value.
pub fn send_control_change(channel: u8, controller: u8, value: u8) -> (r: Vec<u8>)
    ensures
        r@ == seq![status_byte(0xB0, channel), controller, value],
{
    let r = vec![status(0xB0, channel), controller, value];
    assert(r@ =~= seq![status_byte(0xB0, channel), controller, value]);
    r
}

/// The bytes of a program change: `0xCn`, program.
pub fn send_program_change(channel: u8, program: u8) -> (r: Vec<u8>)
    ensures
        r@ == seq![status_byte(0xC0, channel), program],
{
    let r = vec![status(0xC0, channel), program];
    assert(r@ =~= seq![status_byte(0xC0, channel), program]);
    r
}

/// Which output port to open.
#[derive(Clone, Copy, Debug, PartialEq, Eq, Structural)]
pub enum OutputPort {
    /// Create a virtual output port (no port exists).
    Virtual,
    /// Connect to the first of the existing ports.
    First,
}

/// The output port to open when `port_count` ports exist: a virtual one when
/// there is none, otherwise the first.
pub fn output_port(port_count: usize) -> (r: OutputPort)
    ensures
        r == (if port_count == 0 {
            OutputPort::Virtual
        } else {
            OutputPort::First
        }),
{
    if port_count == 0 {
        OutputPort::Virtual
    } else {
        OutputPort::First
    }
}

/// MIDI is usable when an output or an input connection is held; otherwise
/// the error says that none is available.
pub fn connection_status(has_output: bool, has_input: bool) -> (r: Result<(), String>)
    ensures
        match r {
            Ok(()) => has_output || has_input,
            Err(e) => !(has_output || has_input) && e@ == "No MIDI connection available"@,
        },
{
    if has_output || has_input {
        Ok(())
    } else {
        Err(String::from_str("No MIDI connection available"))
    }
}

} // verus!
