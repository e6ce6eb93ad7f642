//! The telemetry store and the frame decoder.
//!
//! One inbound telemetry frame is a fixed 32-byte block: a 1-byte tag, a
//! 4-byte big-endian timestamp, then six 4-byte big-endian words.  Tag `'z'`
//! carries the torque group (sensed, commanded, P, I, D) and the sensed
//! speed; tag `'p'` carries the commanded speed, the speed P, I, D terms, the
//! commanded position and the sensed position.  Each word is stored raw: for
//! the float channels it is an IEEE-754 single's bit pattern, for the sensed
//! position it is a two's-complement integer.  Any other tag is an
//! unrecognized frame: reported, discarded, and the store left untouched.

use vstd::prelude::*;

use crate::wire::{be_word_at, read_be_u32};

verus! {

/// The tag byte of a torque-group telemetry frame: `'z'`.
pub const TAG_TORQUE: u8 = 122;

/// The tag byte of a speed/position-group telemetry frame: `'p'`.
pub const TAG_POSITION: u8 = 112;

/// One decoded sample: the frame's shared timestamp and the channel's raw
/// 4-byte wire word.
#[derive(Clone, Copy, Debug, PartialEq, Eq, Structural)]
pub struct Sample {
    pub time: u32,
    pub raw: u32,
}

/// The channels of the store, as mathematical sequences.
#[verifier::ext_equal]
pub ghost struct TelemetryView {
    pub torque_sns: Seq<Sample>,
    pub torque_cmd: Seq<Sample>,
    pub torque_p: Seq<Sample>,
    pub torque_i: Seq<Sample>,
    pub torque_d: Seq<Sample>,
    pub speed_sns: Seq<Sample>,
    pub speed_cmd: Seq<Sample>,
    pub speed_p: Seq<Sample>,
    pub speed_i: Seq<Sample>,
    pub speed_d: Seq<Sample>,
    pub position_sns: Seq<Sample>,
    pub position_cmd: Seq<Sample>,
}

/// The telemetry store: twelve named time-series channels, append-only,
/// insertion order equal to arrival order.  Created empty at connect time;
/// the reader task is its only writer.
pub struct MotorTelemetry {
    pub torque_sns: Vec<Sample>,
    pub torque_cmd: Vec<Sample>,
    pub torque_p: Vec<Sample>,
    pub torque_i: Vec<Sample>,
    pub torque_d: Vec<Sample>,
    pub speed_sns: Vec<Sample>,
    pub speed_cmd: Vec<Sample>,
    pub speed_p: Vec<Sample>,
    pub speed_i: Vec<Sample>,
    pub speed_d: Vec<Sample>,
    pub position_sns: Vec<Sample>,
    pub position_cmd: Vec<Sample>,
}

impl View for MotorTelemetry {
    type V = TelemetryView;

    open spec fn view(&self) -> TelemetryView {
        TelemetryView {
            torque_sns: self.torque_sns@,
            torque_cmd: self.torque_cmd@,
            torque_p: self.torque_p@,
            torque_i: self.torque_i@,
            torque_d: self.torque_d@,
            speed_sns: self.speed_sns@,
            speed_cmd: self.speed_cmd@,
            speed_p: self.speed_p@,
            speed_i: self.speed_i@,
            speed_d: self.speed_d@,
            position_sns: self.position_sns@,
            position_cmd: self.position_cmd@,
        }
    }
}

/// The store with every channel empty.
pub open spec fn empty_view() -> TelemetryView {
    TelemetryView {
        torque_sns: Seq::empty(),
        torque_cmd: Seq::empty(),
        torque_p: Seq::empty(),
        torque_i: Seq::empty(),
        torque_d: Seq::empty(),
        speed_sns: Seq::empty(),
        speed_cmd: Seq::empty(),
        speed_p: Seq::empty(),
        speed_i: Seq::empty(),
        speed_d: Seq::empty(),
        position_sns: Seq::empty(),
        position_cmd: Seq::empty(),
    }
}

/// The sample a frame contributes to a channel: the shared timestamp and the
/// word at byte offset `off`.
pub open spec fn frame_sample(frame: Seq<u8>, off: int) -> Sample
    recommends
        frame.len() == 32,
        1 <= off,
        off + 4 <= 32,
{
    Sample { time: be_word_at(frame, 1) as u32, raw: be_word_at(frame, off) as u32 }
}

/// The store after decoding one 32-byte frame: tag `'z'` appends the five
/// torque samples and the sensed speed, tag `'p'` the commanded speed, the
/// three speed controller terms, the commanded position and the sensed
/// position, each with the frame's timestamp; any other tag changes nothing.
pub open spec fn store_after(v: TelemetryView, frame: Seq<u8>) -> TelemetryView
    recommends
        frame.len() == 32,
{
    if frame[0] == TAG_TORQUE {
        TelemetryView {
            torque_sns: v.torque_sns.push(frame_sample(frame, 5)),
            torque_cmd: v.torque_cmd.push(frame_sample(frame, 9)),
            torque_p: v.torque_p.push(frame_sample(frame, 13)),
            torque_i: v.torque_i.push(frame_sample(frame, 17)),
            torque_d: v.torque_d.push(frame_sample(frame, 21)),
            speed_sns: v.speed_sns.push(frame_sample(frame, 25)),
            ..v
        }
    } else if frame[0] == TAG_POSITION {
        TelemetryView {
            speed_cmd: v.speed_cmd.push(frame_sample(frame, 5)),
            speed_p: v.speed_p.push(frame_sample(frame, 9)),
            speed_i: v.speed_i.push(frame_sample(frame, 13)),
            speed_d: v.speed_d.push(frame_sample(frame, 17)),
            position_cmd: v.position_cmd.push(frame_sample(frame, 21)),
            position_sns: v.position_sns.push(frame_sample(frame, 25)),
            ..v
        }
    } else {
        v
    }
}

/// A telemetry frame whose tag byte is not recognized.  Non-fatal: the
/// reader logs it, discards the frame and continues.
#[derive(Clone, Copy, Debug, PartialEq, Eq, Structural)]
pub enum FrameError {
    UnrecognizedTag(u8),
}

impl MotorTelemetry {
    /// A store with every channel empty.
    pub fn new() -> (t: Self)
        ensures
            t@ == empty_view(),
    {
        let t = MotorTelemetry {
            torque_sns: Vec::new(),
            torque_cmd: Vec::new(),
            torque_p: Vec::new(),
            torque_i: Vec::new(),
            torque_d: Vec::new(),
            speed_sns: Vec::new(),
            speed_cmd: Vec::new(),
            speed_p: Vec::new(),
            speed_i: Vec::new(),
            speed_d: Vec::new(),
            position_sns: Vec::new(),
            position_cmd: Vec::new(),
        };
        proof {
            assert(t@ =~~= empty_view());
        }
        t
    }

    /// Decode one 32-byte frame into the store, consuming the documented
    /// fields in order.  Succeeds exactly on the two recognized tags; an
    /// unrecognized tag is returned as the error, with every channel left
    /// unchanged.
    pub fn consume_buffer(&mut self, buffer: &[u8]) -> (r: Result<(), FrameError>)
        requires
            buffer@.len() == 32,
        ensures
            final(self)@ == store_after(old(self)@, buffer@),
            r is Ok <==> (buffer@[0] == TAG_TORQUE || buffer@[0] == TAG_POSITION),
            r is Err ==> r == Result::<(), FrameError>::Err(
                FrameError::UnrecognizedTag(buffer@[0]),
            ),
    {
        let msg_type = buffer[0];
        let time = read_be_u32(buffer, 1);
        match msg_type {
            TAG_TORQUE => {
                self.torque_sns.push(Sample { time, raw: read_be_u32(buffer, 5) });
                self.torque_cmd.push(Sample { time, raw: read_be_u32(buffer, 9) });
                self.torque_p.push(Sample { time, raw: read_be_u32(buffer, 13) });
                self.torque_i.push(Sample { time, raw: read_be_u32(buffer, 17) });
                self.torque_d.push(Sample { time, raw: read_be_u32(buffer, 21) });
                self.speed_sns.push(Sample { time, raw: read_be_u32(buffer, 25) });
                proof {
                    assert(self@ =~~= store_after(old(self)@, buffer@));
                }
                Ok(())
            },
            TAG_POSITION => {
                self.speed_cmd.push(Sample { time, raw: read_be_u32(buffer, 5) });
                self.speed_p.push(Sample { time, raw: read_be_u32(buffer, 9) });
                self.speed_i.push(Sample { time, raw: read_be_u32(buffer, 13) });
                self.speed_d.push(Sample { time, raw: read_be_u32(buffer, 17) });
                self.position_cmd.push(Sample { time, raw: read_be_u32(buffer, 21) });
                self.position_sns.push(Sample { time, raw: read_be_u32(buffer, 25) });
                proof {
                    assert(self@ =~~= store_after(old(self)@, buffer@));
                }
                Ok(())
            },
            other => {
                proof {
                    assert(self@ =~~= store_after(old(self)@, buffer@));
                }
                Err(FrameError::UnrecognizedTag(other))
            },
        }
    }
}

impl Default for MotorTelemetry {
    /// The empty store; what a freshly connected driver starts from.
    fn default() -> (t: Self)
        ensures
            t@ == empty_view(),
    {
        MotorTelemetry::new()
    }
}

} // verus!
