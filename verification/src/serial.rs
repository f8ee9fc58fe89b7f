//! Frame boundary detection over a continuously running receive transfer.
//!
//! The bus has no end-of-frame marker: a frame ends when the line goes
//! silent.  The hardware keeps filling a fixed buffer and only its
//! remaining-transfer count can be observed; the driver polls that count
//! every loop tick.  This module is the decision half of that driver: a
//! three-state machine that re-arms a silence deadline whenever the count
//! moves, declares the accumulated span a frame once the deadline passes
//! with the count still, and hands the span length out exactly once.  The
//! polling of the hardware counter and the re-arming of the transfer stay
//! outside this crate.
//!
//! The buffer is shared with the hardware and single: if a new frame starts
//! before the previous one's silence deadline fires, the poll sees the
//! count move again and simply re-arms, so the earlier bytes are overwritten
//! in place.  That race is a known limit of the single-buffer design, kept
//! as it is.

use vstd::prelude::*;

verus! {

/// The receive buffer length in bytes.
pub const RX_BUF_LEN: u16 = 20;

/// How long the line must stay silent before the span counts as one frame,
/// in milliseconds.
pub const RX_SILENCE_MS: u32 = 3;

/// Where frame acquisition stands: waiting for activity, activity seen
/// with the silence deadline pending, or a complete span of the given
/// length waiting to be taken.
#[derive(Clone, Copy, PartialEq, Eq, Structural, Debug)]
pub enum RxState {
    Idle,
    Armed { deadline: u32 },
    Ready { len: u16 },
}

/// The framing state machine: its phase and the remaining-transfer count
/// seen at the previous poll.
#[derive(Clone, Copy, PartialEq, Eq, Structural, Debug)]
pub struct RxFramer {
    pub state: RxState,
    pub last_remaining: u16,
}

/// A ready span never claims more than the buffer holds.
pub open spec fn spec_framer_wf(f: RxFramer) -> bool {
    f.last_remaining <= RX_BUF_LEN && (f.state matches RxState::Ready { len } ==> len
        <= RX_BUF_LEN)
}

/// One poll of the remaining-transfer count at time `now`: a moved count
/// (re)arms the silence deadline; a still count past an armed deadline
/// declares the span ready; anything else changes nothing.
pub open spec fn spec_framer_poll(f: RxFramer, remaining: u16, now: u32) -> RxFramer {
    if remaining != f.last_remaining {
        RxFramer {
            state: RxState::Armed { deadline: (now + RX_SILENCE_MS) as u32 },
            last_remaining: remaining,
        }
    } else {
        match f.state {
            RxState::Armed { deadline } => {
                if now >= deadline {
                    RxFramer { state: RxState::Ready { len: (RX_BUF_LEN - remaining) as u16 }, ..f }
                } else {
                    f
                }
            },
            _ => f,
        }
    }
}

impl RxFramer {
    /// A framer waiting for the first byte, with the whole buffer still to
    /// be filled.
    pub fn new() -> (r: Self)
        ensures
            r == (RxFramer { state: RxState::Idle, last_remaining: RX_BUF_LEN }),
            spec_framer_wf(r),
    {
        RxFramer { state: RxState::Idle, last_remaining: RX_BUF_LEN }
    }

    /// Feeds one observation of the remaining-transfer count into the
    /// state machine.
    pub fn on_poll(&mut self, remaining: u16, now: u32)
        requires
            spec_framer_wf(*old(self)),
            remaining <= RX_BUF_LEN,
            now <= u32::MAX - RX_SILENCE_MS,
        ensures
            spec_framer_wf(*final(self)),
            *final(self) == spec_framer_poll(*old(self), remaining, now),
    {
        if remaining != self.last_remaining {
            self.state = RxState::Armed { deadline: now + RX_SILENCE_MS };
            self.last_remaining = remaining;
            return ;
        }

        match self.state {
            RxState::Armed { deadline } => {
                if now >= deadline {
                    self.state = RxState::Ready { len: RX_BUF_LEN - self.last_remaining };
                }
            },
            _ => {},
        }
    }

    /// Takes the completed span's length, if one is ready, resetting the
    /// machine for the next frame; the caller then decodes the span,
    /// clears the buffer and re-arms the transfer.
    pub fn take_frame(&mut self) -> (r: Option<u16>)
        requires
            spec_framer_wf(*old(self)),
        ensures
            spec_framer_wf(*final(self)),
            old(self).state matches RxState::Ready { len } ==> r == Some(len) && *final(self) == (
            RxFramer { state: RxState::Idle, last_remaining: RX_BUF_LEN }),
            !(old(self).state is Ready) ==> r == None::<u16> && *final(self) == *old(self),
    {
        match self.state {
            RxState::Ready { len } => {
                self.state = RxState::Idle;
                self.last_remaining = RX_BUF_LEN;
                Some(len)
            },
            _ => None,
        }
    }
}

} // verus!
