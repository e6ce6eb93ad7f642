//! Recognition of inbound datagrams on the network command bridge.
//!
//! The bridge accepts exactly one message shape: a 5-byte datagram whose
//! first byte is `'p'`, followed by a little-endian IEEE-754 single.  The
//! listener scales that value by a fixed factor, rounds it and forwards it
//! as a `Position` command; scaling and rounding are the listener's own
//! floating-point step.  This module decides recognition and hands back the
//! value's raw bit pattern; any other datagram shape is discarded, which is
//! not an error.

use vstd::prelude::*;

use crate::wire::{le_word_at, read_le_u32};

verus! {

/// The tag byte of a recognized position datagram: `'p'`.
pub const DATAGRAM_POSITION: u8 = 112;

/// Recognize one received datagram, given as the exact bytes received.
/// Returns the bit pattern of the carried little-endian single when and only
/// when the datagram is 5 bytes long and starts with `'p'`; every other
/// shape yields nothing and is to be discarded.
pub fn parse_datagram(data: &[u8]) -> (r: Option<u32>)
    ensures
        r is Some <==> (data@.len() == 5 && data@[0] == DATAGRAM_POSITION),
        r is Some ==> r == Some((le_word_at(data@, 1) as u32)),
{
    if data.len() == 5 && data[0] == DATAGRAM_POSITION {
        Some(read_le_u32(data, 1))
    } else {
        None
    }
}

} // verus!
