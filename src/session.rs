//! One session per open channel: it owns a pointer device, decodes and
//! dispatches each frame, and on closing forces both buttons up.
use vstd::prelude::*;
use crate::codec::{decode, decode_spec, Button, Command, ParseError};
use crate::dispatch::{dispatch, ok_op, plan_spec, Dispatched, Op, PointerDevice};

verus! {

#[derive(Clone, Copy, Debug, PartialEq, Eq, Structural)]
pub enum SessionState {
    /// Reading and dispatching frames.
    Open,
    /// The channel has ended; cleanup is under way.
    Closing,
    /// Terminal: both buttons have been released.
    Closed,
}

/// Whether the operations in `log` leave `button` pressed: the last press or
/// release of it decides, and a button never touched is up.
pub open spec fn holds(log: Seq<Op>, button: Button) -> bool
    decreases log.len(),
{
    if log.len() == 0 {
        false
    } else {
        match log.last() {
            Op::Press { button: b } if b == button => true,
            Op::Release { button: b } if b == button => false,
            _ => holds(log.drop_last(), button),
        }
    }
}

/// The operations that closing a session issues.
pub open spec fn cleanup_ops() -> Seq<Op> {
    seq![Op::Release { button: Button::Left }, Op::Release { button: Button::Right }]
}

/// Whatever a device was handed before, the cleanup leaves both buttons up.
pub proof fn lemma_cleanup_releases(log: Seq<Op>)
    ensures
        !holds(log + cleanup_ops(), Button::Left),
        !holds(log + cleanup_ops(), Button::Right),
{
    let first = log.push(Op::Release { button: Button::Left });
    assert(log + cleanup_ops() =~= first.push(Op::Release { button: Button::Right }));
    assert(first.push(Op::Release { button: Button::Right }).drop_last() =~= first);
    assert(first.drop_last() =~= log);
    assert(!holds(first, Button::Left));
    assert(holds(first.push(Op::Release { button: Button::Right }), Button::Left) == holds(
        first,
        Button::Left,
    ));
}

/// What became of one received frame.
#[derive(Clone, Copy, Debug)]
pub enum Received {
    /// The frame did not decode and was dropped; the session goes on.
    Rejected { error: ParseError },
    /// The frame decoded to `command`, which was dispatched.
    Handled { command: Command, outcome: Dispatched },
    /// The session is no longer open; the frame was ignored.
    Ignored,
}

/// The outcome of the two releases at cleanup; a failure is not an error.
#[derive(Clone, Copy, Debug, PartialEq, Eq, Structural)]
pub struct Cleanup {
    pub left_released: bool,
    pub right_released: bool,
}

pub struct Session<D: PointerDevice> {
    device: D,
    peer: String,
    state: SessionState,
}

impl<D: PointerDevice> Session<D> {
    /// The state of the session.
    pub closed spec fn state_spec(&self) -> SessionState {
        self.state
    }

    /// The device that the session owns.
    pub closed spec fn device_spec(&self) -> D {
        self.device
    }

    /// Every operation handed to the session's device, in order.
    pub open spec fn device_history(&self) -> Seq<Op> {
        self.device_spec().history()
    }

    pub closed spec fn peer_spec(&self) -> Seq<char> {
        self.peer@
    }

    /// A session is never seen half-closed, and once closed its device holds
    /// no button.
    pub open spec fn wf(&self) -> bool {
        &&& self.state_spec() != SessionState::Closing
        &&& self.state_spec() == SessionState::Closed ==> {
            &&& !holds(self.device_history(), Button::Left)
            &&& !holds(self.device_history(), Button::Right)
        }
    }

    /// Opens a session that owns `device`, for the peer at `peer`.
    pub fn new(device: D, peer: String) -> (s: Self)
        ensures
            s.wf(),
            s.state_spec() == SessionState::Open,
            s.device_spec() == device,
            s.peer_spec() == peer@,
    {
        Session { device, peer, state: SessionState::Open }
    }

    pub fn state(&self) -> (r: SessionState)
        ensures
            r == self.state_spec(),
    {
        self.state
    }

    /// The device that the session owns.
    pub fn device(&self) -> (r: &D)
        ensures
            *r == self.device_spec(),
    {
        &self.device
    }

    /// The network identity of the peer, for diagnostics.
    pub fn peer(&self) -> (r: &String)
        ensures
            r@ == self.peer_spec(),
    {
        &self.peer
    }

    /// Decodes one frame and dispatches it. A frame that does not decode is
    /// dropped, nothing reaches the device, and the session stays open.
    pub fn receive(&mut self, frame: &str) -> (r: Received)
        requires
            old(self).wf(),
        ensures
            final(self).wf(),
            final(self).state_spec() == old(self).state_spec(),
            final(self).peer_spec() == old(self).peer_spec(),
            old(self).state_spec() != SessionState::Open ==> {
                &&& r is Ignored
                &&& final(self).device_history() == old(self).device_history()
            },
            old(self).state_spec() == SessionState::Open ==> match decode_spec(frame@) {
                Err(e) => r == Received::Rejected { error: e } && final(self).device_history()
                    == old(self).device_history(),
                Ok(c) => match r {
                    Received::Handled { command, outcome } => {
                        &&& command == c
                        &&& outcome.issued == ok_op(plan_spec(c, outcome.position))
                        &&& final(self).device_history() == match outcome.issued {
                            Some(op) => old(self).device_history().push(op),
                            None => old(self).device_history(),
                        }
                    },
                    _ => false,
                },
            },
    {
        if self.state != SessionState::Open {
            return Received::Ignored;
        }
        match decode(frame) {
            Err(error) => Received::Rejected { error },
            Ok(command) => {
                let outcome = dispatch(&command, &mut self.device);
                Received::Handled { command, outcome }
            },
        }
    }

    /// Ends the session: hands the device a release of Left, then of Right,
    /// whatever their last known state and whether or not the first release
    /// is refused, and enters the terminal state. Closing a closed session
    /// hands the device nothing and reports both buttons as released.
    pub fn close(&mut self) -> (r: Cleanup)
        requires
            old(self).wf(),
        ensures
            final(self).wf(),
            final(self).state_spec() == SessionState::Closed,
            final(self).peer_spec() == old(self).peer_spec(),
            !holds(final(self).device_history(), Button::Left),
            !holds(final(self).device_history(), Button::Right),
            old(self).state_spec() == SessionState::Open ==> final(self).device_history() == old(
                self,
            ).device_history() + cleanup_ops(),
            old(self).state_spec() == SessionState::Closed ==> {
                &&& final(self).device_history() == old(self).device_history()
                &&& r == Cleanup { left_released: true, right_released: true }
            },
    {
        if self.state == SessionState::Closed {
            return Cleanup { left_released: true, right_released: true };
        }
        self.state = SessionState::Closing;
        let ghost before = self.device.history();
        let left_released = self.device.release(Button::Left);
        let right_released = self.device.release(Button::Right);
        proof {
            lemma_cleanup_releases(before);
            assert(self.device.history() =~= before + cleanup_ops());
        }
        self.state = SessionState::Closed;
        Cleanup { left_released, right_released }
    }
}

} // verus!
