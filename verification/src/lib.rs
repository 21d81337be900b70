//! Verified core of a MIDI bridge: the messages it sends, the playback
//! schedules it runs, the port listings and connection decisions it makes,
//! and the text it reports. Talking to the operating system's MIDI service
//! and to the Erlang VM is left to the caller.

pub mod connect;
pub mod message;
pub mod playback;
pub mod ports;
pub mod report;
pub mod text;
