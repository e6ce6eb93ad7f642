//! The per-iteration decisions of the two background tasks of the serial
//! link driver.  The tasks themselves block on a port and on a queue, so
//! their loops live outside the library; each loop body hands its event to
//! one of these functions.
//!
//! Reader task: each iteration first samples the hangup flag and stops once
//! it is set; otherwise a full 32-byte frame is decoded into the store and a
//! failed read is logged and retried.  Writer task: it drains the command
//! queue in FIFO order and emits each command's frame whole before taking
//! the next, so the wire carries the frames in submission order.

use vstd::prelude::*;

use crate::codec::{encoded, lemma_wire_append, wire_of, MotorCmd};
use crate::telemetry::{store_after, FrameError, MotorTelemetry, TAG_POSITION, TAG_TORQUE};

verus! {

/// What the reader task received on one iteration: a whole 32-byte frame,
/// or a short read or I/O fault (a timeout included).
pub enum ReadEvent<'a> {
    Frame(&'a [u8]),
    Fault,
}

impl<'a> ReadEvent<'a> {
    /// A frame event carries a full fixed-size frame.
    pub open spec fn wf(self) -> bool {
        match self {
            ReadEvent::Frame(f) => f@.len() == 32,
            ReadEvent::Fault => true,
        }
    }
}

/// One iteration of the reader task.  Once hangup is signaled nothing more
/// is appended to the store, whatever still arrives, and the task stops.
/// Before that, a frame is decoded into the store and a fault leaves the
/// store untouched; either way the task continues.  An unrecognized tag
/// comes back as the non-fatal error, to be logged and forgotten: the frame
/// is discarded, the store untouched, the loop goes on.
pub fn reader_step(telem: &mut MotorTelemetry, hangup: bool, event: ReadEvent) -> (r: (
    bool,
    Option<FrameError>,
))
    requires
        event.wf(),
    ensures
        r.0 == !hangup,
        hangup ==> final(telem)@ == old(telem)@ && r.1 is None,
        !hangup ==> match event {
            ReadEvent::Frame(f) => {
                &&& final(telem)@ == store_after(old(telem)@, f@)
                &&& (r.1 is Some <==> !(f@[0] == TAG_TORQUE || f@[0] == TAG_POSITION))
                &&& (r.1 is Some ==> r.1 == Some(FrameError::UnrecognizedTag(f@[0])))
            },
            ReadEvent::Fault => final(telem)@ == old(telem)@ && r.1 is None,
        },
{
    if hangup {
        return (false, None);
    }
    match event {
        ReadEvent::Frame(f) => {
            match telem.consume_buffer(f) {
                Ok(()) => (true, None),
                Err(e) => (true, Some(e)),
            }
        },
        ReadEvent::Fault => (true, None),
    }
}

/// The writer task's output for a queue of commands: each command encoded
/// whole, in queue order.  Submission order in, frame order out.
pub fn writer_drain(cmds: &Vec<MotorCmd>) -> (wire: Vec<u8>)
    ensures
        wire@ == wire_of(cmds@),
{
    let mut wire: Vec<u8> = Vec::new();
    let mut i: usize = 0;
    while i < cmds.len()
        invariant
            i <= cmds@.len(),
            wire@ == wire_of(cmds@.take(i as int)),
        decreases cmds@.len() - i,
    {
        let mut frame = cmds[i].to_vec();
        proof {
            lemma_wire_append(cmds@.take(i as int), seq![cmds@[i as int]]);
            assert(cmds@.take(i as int) + seq![cmds@[i as int]] =~= cmds@.take(i as int + 1));
            let single = seq![cmds@[i as int]];
            assert(single.skip(1) =~= Seq::<MotorCmd>::empty());
            assert(wire_of(Seq::<MotorCmd>::empty()) =~= Seq::<u8>::empty());
            assert(wire_of(single) =~= encoded(cmds@[i as int]));
        }
        wire.append(&mut frame);
        i = i + 1;
    }
    proof {
        assert(cmds@.take(cmds@.len() as int) =~= cmds@);
    }
    wire
}

} // verus!
