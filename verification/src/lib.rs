//! A verified terminal session engine: a character grid driven by a
//! byte-stream interpreter, a key encoder, paste handling, a session
//! coordinator state machine, and a last-value-wins snapshot slot.
//!
//! The engine itself performs no I/O: a host embeds it by feeding it the
//! bytes read from a pseudo-terminal and carrying out the actions it
//! returns (write, resize, close, publish).

pub mod cell;
pub mod channel;
pub mod coordinator;
pub mod encoder;
pub mod errors;
pub mod explorer;
pub mod laws;
pub mod model;
pub mod paste;
pub mod remote;
pub mod screen;
pub mod selection;
pub mod size;
pub mod snapshot;
pub mod tabs;
pub mod unicode;

use vstd::prelude::*;

verus! {

} // verus!
