use vstd::prelude::*;

verus! {

/// Timestamp units that one frame spans: 20 ms of audio at 48 kHz.
pub const TICKS_PER_FRAME: u64 = 960;

/// Consecutive unanswered keepalives after which the link counts as lost.
pub const KEEPALIVE_LIMIT: u32 = 3;

/// The sequence number and timestamp that the next outbound frame will carry.
#[derive(Clone, Copy, Debug, PartialEq, Eq, Structural)]
pub struct Counters {
    pub sequence: u64,
    pub timestamp: u64,
}

/// One fixed-duration slice of encoded audio, ready for the wire.
#[derive(Debug)]
pub struct Frame {
    pub sequence: u64,
    pub timestamp: u64,
    pub payload: Vec<u8>,
}

/// A frame as a mathematical value.
pub struct FrameView {
    pub sequence: u64,
    pub timestamp: u64,
    pub payload: Seq<u8>,
}

impl View for Frame {
    type V = FrameView;

    open spec fn view(&self) -> FrameView {
        FrameView { sequence: self.sequence, timestamp: self.timestamp, payload: self.payload@ }
    }
}

impl Counters {
    /// Whether another frame can be numbered without a counter wrapping round.
    pub open spec fn has_room(self) -> bool {
        self.sequence < u64::MAX && self.timestamp <= u64::MAX - TICKS_PER_FRAME
    }

    /// The counters after one more frame went out.
    pub open spec fn advanced(self) -> Counters
        recommends
            self.has_room(),
    {
        Counters {
            sequence: (self.sequence + 1) as u64,
            timestamp: (self.timestamp + TICKS_PER_FRAME) as u64,
        }
    }

    /// The counters of a session that has sent nothing yet.
    pub fn new() -> (c: Counters)
        ensures
            c.sequence == 0,
            c.timestamp == 0,
    {
        Counters { sequence: 0, timestamp: 0 }
    }

    /// Numbers `payload` as the next outbound frame and moves the counters on.
    /// Returns `None`, and leaves the counters alone, exactly when a counter
    /// would wrap round: a number is never handed out twice.
    pub fn stamp(&mut self, payload: Vec<u8>) -> (frame: Option<Frame>)
        ensures
            old(self).has_room() ==> frame is Some && frame->0@ == (FrameView {
                sequence: old(self).sequence,
                timestamp: old(self).timestamp,
                payload: payload@,
            }) && *final(self) == old(self).advanced(),
            !old(self).has_room() ==> frame is None && *final(self) == *old(self),
    {
        if self.sequence < u64::MAX && self.timestamp <= u64::MAX - TICKS_PER_FRAME {
            let frame = Frame { sequence: self.sequence, timestamp: self.timestamp, payload };
            self.sequence = self.sequence + 1;
            self.timestamp = self.timestamp + TICKS_PER_FRAME;
            Some(frame)
        } else {
            None
        }
    }
}

/// Advancing the counters moves both of them strictly forward, so a frame
/// numbered later never repeats or precedes one numbered earlier.
pub proof fn counters_strictly_increase(c: Counters)
    requires
        c.has_room(),
    ensures
        c.advanced().sequence > c.sequence,
        c.advanced().timestamp > c.timestamp,
{
}

} // verus!
