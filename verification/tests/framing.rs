//! Frame boundary detection tests: the silence-timeout state machine.

use juice_box::serial::{RxFramer, RxState, RX_BUF_LEN};

#[test]
fn fresh_framer_is_idle() {
    let framer = RxFramer::new();
    assert_eq!(framer.state, RxState::Idle);
    assert_eq!(framer.last_remaining, RX_BUF_LEN);
    let mut framer = framer;
    assert_eq!(framer.take_frame(), None);
}

#[test]
fn activity_arms_the_silence_deadline() {
    let mut framer = RxFramer::new();
    // Eight bytes arrived by t = 100: the count moved, so a deadline is
    // armed three milliseconds out.
    framer.on_poll(12, 100);
    assert_eq!(framer.state, RxState::Armed { deadline: 103 });
    assert_eq!(framer.take_frame(), None);
}

#[test]
fn further_activity_rearms() {
    let mut framer = RxFramer::new();
    framer.on_poll(14, 100);
    framer.on_poll(12, 102);
    assert_eq!(framer.state, RxState::Armed { deadline: 105 });
    // Before the deadline, a still count changes nothing.
    framer.on_poll(12, 104);
    assert_eq!(framer.state, RxState::Armed { deadline: 105 });
}

#[test]
fn silence_completes_the_frame() {
    let mut framer = RxFramer::new();
    framer.on_poll(12, 100);
    framer.on_poll(12, 103);
    assert_eq!(framer.state, RxState::Ready { len: RX_BUF_LEN - 12 });
    assert_eq!(framer.take_frame(), Some(8));
    // Taking the span resets the machine for the next frame.
    assert_eq!(framer.state, RxState::Idle);
    assert_eq!(framer.last_remaining, RX_BUF_LEN);
    assert_eq!(framer.take_frame(), None);
}

#[test]
fn new_frame_before_consumption_rearms_over_it() {
    // The single shared buffer means bytes arriving right at the deadline
    // re-arm the machine instead of preserving the finished span.
    let mut framer = RxFramer::new();
    framer.on_poll(12, 100);
    framer.on_poll(10, 103);
    assert_eq!(framer.state, RxState::Armed { deadline: 106 });
}
