//! Turn joystick and gamepad input into OSC (and MIDI) messages for QLC+, key
//! presses, HTTP requests or commands.
//!
//! The library holds the decisions of the bridge: the mapping configuration and
//! its lookups, the gating of axis mappings by held buttons, what an action or a
//! button release sends, the wire form of the MIDI and OSC messages, the
//! decoding of incoming OSC packets for display, and the text of the terminal
//! status panel. The program around it reads devices,
//! files and sockets and performs what the library decides.
pub mod text;
pub mod osc;
pub mod midi;
pub mod config;
pub mod term_status;
pub mod keys;
pub mod joystick;
pub mod tray;
