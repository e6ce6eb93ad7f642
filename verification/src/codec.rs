//! The command codec: each driver command maps to exactly one wire frame,
//! a framing byte repeated as start and end marker around the payload.

use vstd::prelude::*;

use crate::wire::{be_bytes_of, word_from_i32, word_of_i32};

verus! {

/// The framing byte of an enable frame: `'e'`.
pub const MARK_ENABLE: u8 = 101;

/// The framing byte of a position frame: `'p'`.
pub const MARK_POSITION: u8 = 112;

/// The framing byte of a home frame: `'h'`.
pub const MARK_HOME: u8 = 104;

/// A command for the motor controller.  Immutable once constructed; the
/// writer task consumes each command exactly once.
#[derive(Clone, Copy, Debug, PartialEq, Eq, Structural)]
pub enum MotorCmd {
    Position(i32),
    Enable(bool),
    Home,
}

/// The wire frame of one command:
/// `Enable(b)` is `'e'`, `b` as 0/1, `'e'`;
/// `Position(n)` is `'p'`, the 4-byte big-endian two's-complement of `n`, `'p'`;
/// `Home` is `'h'`, 1, `'h'`.
pub open spec fn encoded(cmd: MotorCmd) -> Seq<u8> {
    match cmd {
        MotorCmd::Enable(en) => seq![MARK_ENABLE, if en { 1u8 } else { 0u8 }, MARK_ENABLE],
        MotorCmd::Position(pos) => seq![MARK_POSITION] + be_bytes_of(word_of_i32(pos)) + seq![MARK_POSITION],
        MotorCmd::Home => seq![MARK_HOME, 1u8, MARK_HOME],
    }
}

/// The bytes the writer task puts on the wire for a queue of commands:
/// each command's frame, whole, in queue order.
pub open spec fn wire_of(cmds: Seq<MotorCmd>) -> Seq<u8>
    decreases cmds.len(),
{
    if cmds.len() == 0 {
        Seq::empty()
    } else {
        encoded(cmds[0]) + wire_of(cmds.skip(1))
    }
}

impl MotorCmd {
    /// Encode this command into its wire frame.  Total and deterministic;
    /// every variant has exactly one layout.
    pub fn to_vec(&self) -> (buf: Vec<u8>)
        ensures
            buf@ == encoded(*self),
    {
        let mut buf: Vec<u8> = Vec::new();
        match self {
            MotorCmd::Enable(en) => {
                let enable: u8 = if *en {
                    1
                } else {
                    0
                };
                buf.push(MARK_ENABLE);
                buf.push(enable);
                buf.push(MARK_ENABLE);
            },
            MotorCmd::Position(pos) => {
                buf.push(MARK_POSITION);
                let w = word_from_i32(*pos);
                crate::wire::push_be_u32(&mut buf, w);
                buf.push(MARK_POSITION);
            },
            MotorCmd::Home => {
                buf.push(MARK_HOME);
                buf.push(1);
                buf.push(MARK_HOME);
            },
        }
        proof {
            assert(buf@ =~= encoded(*self));
        }
        buf
    }

    /// Decoding inbound command bytes is not part of the protocol's current
    /// feature set: the reverse direction is unimplemented by design, and
    /// every non-empty input maps to `Enable(false)`.
    pub fn from_bytes(buf: &[u8]) -> (cmd: Self)
        requires
            buf@.len() >= 1,
        ensures
            cmd == MotorCmd::Enable(false),
    {
        let _kind = buf[0];
        MotorCmd::Enable(false)
    }
}

/// Frames never interleave: the wire bytes of one queue followed by another
/// are the wire bytes of the first, whole, then those of the second.  With
/// the definition of `wire_of` this is what submission-order delivery means:
/// submitting a batch appends its frames, in order, after everything
/// submitted before.
pub proof fn lemma_wire_append(a: Seq<MotorCmd>, b: Seq<MotorCmd>)
    ensures
        wire_of(a + b) == wire_of(a) + wire_of(b),
    decreases a.len(),
{
    if a.len() == 0 {
        assert(a + b =~= b);
        assert(wire_of(a) + wire_of(b) =~= wire_of(b));
    } else {
        assert((a + b).skip(1) =~= a.skip(1) + b);
        lemma_wire_append(a.skip(1), b);
        assert(wire_of(a + b) =~= wire_of(a) + wire_of(b));
    }
}

} // verus!
