//! Codec for the Neutron synthesizer's SysEx remote-control dialect.
//!
//! The library recognizes raw byte buffers as structured control messages
//! and produces the exact byte sequences the hardware expects: the frame
//! envelope, the device-addressing scheme and the catalogue of global
//! settings, each with its byte-level encoding rules. Encoding and
//! decoding are proved to be exact inverses on well-formed messages, and
//! the laws module states the codec's algebraic properties.

use vstd::prelude::*;

pub mod commands;
pub mod laws;
pub mod parser;
pub mod protocol;
pub mod state;

verus! {

} // verus!
