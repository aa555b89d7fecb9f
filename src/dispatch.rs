//! The command dispatcher: from a command to pointer operations.
use vstd::prelude::*;
use crate::codec::{Button, Command};
use crate::delta::clamp_i32;

verus! {

/// The capability of issuing OS-level pointer events. Each operation reports
/// whether the device accepted it, and is recorded in the device's history
/// whether or not it was accepted.
pub trait PointerDevice {
    /// Every move, press and release handed to this device, in order.
    spec fn history(&self) -> Seq<Op>;

    /// The current absolute position, where it can be read.
    fn position(&self) -> Option<(i32, i32)>;

    /// Moves the pointer to an absolute position.
    fn move_to(&mut self, x: i32, y: i32) -> (r: bool)
        ensures
            final(self).history() == old(self).history().push(Op::MoveTo { x, y }),
    ;

    fn press(&mut self, button: Button) -> (r: bool)
        ensures
            final(self).history() == old(self).history().push(Op::Press { button }),
    ;

    fn release(&mut self, button: Button) -> (r: bool)
        ensures
            final(self).history() == old(self).history().push(Op::Release { button }),
    ;
}

/// One operation issued to a device.
#[derive(Clone, Copy, Debug, PartialEq, Eq, Structural)]
pub enum Op {
    MoveTo { x: i32, y: i32 },
    Press { button: Button },
    Release { button: Button },
}

#[derive(Clone, Copy, Debug, PartialEq, Eq, Structural)]
pub enum Direction {
    Down,
    Up,
}

#[derive(Clone, Copy, Debug, PartialEq, Eq, Structural)]
pub enum DeviceError {
    /// The current position could not be read; no move was issued.
    PositionUnavailable,
    /// The device refused the move.
    MoveFailed,
    /// The device refused a press or a release.
    ButtonActionFailed { button: Button, direction: Direction },
}

/// The absolute target of a relative move, each coordinate saturated into `i32`.
pub open spec fn target_spec(pos: (i32, i32), dx: i32, dy: i32) -> (i32, i32) {
    (clamp_i32(pos.0 + dx), clamp_i32(pos.1 + dy))
}

/// The operation that `cmd` asks for, given the position read before it.
pub open spec fn plan_spec(cmd: Command, pos: Option<(i32, i32)>) -> Result<Op, DeviceError> {
    match cmd {
        Command::MoveBy { dx, dy } => match pos {
            None => Err(DeviceError::PositionUnavailable),
            Some(p) => Ok(Op::MoveTo { x: target_spec(p, dx, dy).0, y: target_spec(p, dx, dy).1 }),
        },
        Command::ButtonDown { button } => Ok(Op::Press { button }),
        Command::ButtonUp { button } => Ok(Op::Release { button }),
    }
}

/// The error that reports a refused operation.
pub open spec fn failure_of(op: Op) -> DeviceError {
    match op {
        Op::MoveTo { .. } => DeviceError::MoveFailed,
        Op::Press { button } => DeviceError::ButtonActionFailed { button, direction: Direction::Down },
        Op::Release { button } => DeviceError::ButtonActionFailed { button, direction: Direction::Up },
    }
}

pub open spec fn ok_op(r: Result<Op, DeviceError>) -> Option<Op> {
    match r {
        Ok(op) => Some(op),
        Err(_) => None,
    }
}

fn add_clamped(a: i32, b: i32) -> (r: i32)
    ensures
        r == clamp_i32(a + b),
{
    let s: i64 = a as i64 + b as i64;
    if s > i32::MAX as i64 {
        i32::MAX
    } else if s < i32::MIN as i64 {
        i32::MIN
    } else {
        s as i32
    }
}

/// The absolute target of moving by `(dx, dy)` from `pos`.
pub fn target(pos: (i32, i32), dx: i32, dy: i32) -> (r: (i32, i32))
    ensures
        r == target_spec(pos, dx, dy),
{
    (add_clamped(pos.0, dx), add_clamped(pos.1, dy))
}

/// The operation that `cmd` asks for, given the position read before it.
pub fn plan(cmd: &Command, pos: Option<(i32, i32)>) -> (r: Result<Op, DeviceError>)
    ensures
        r == plan_spec(*cmd, pos),
{
    match *cmd {
        Command::MoveBy { dx, dy } => match pos {
            None => Err(DeviceError::PositionUnavailable),
            Some(p) => {
                let (x, y) = target(p, dx, dy);
                Ok(Op::MoveTo { x, y })
            },
        },
        Command::ButtonDown { button } => Ok(Op::Press { button }),
        Command::ButtonUp { button } => Ok(Op::Release { button }),
    }
}

/// Issues one operation; true when the device accepted it.
fn issue<D: PointerDevice>(device: &mut D, op: Op) -> (r: bool)
    ensures
        final(device).history() == old(device).history().push(op),
{
    match op {
        Op::MoveTo { x, y } => device.move_to(x, y),
        Op::Press { button } => device.press(button),
        Op::Release { button } => device.release(button),
    }
}

/// What dispatching one command did.
#[derive(Clone, Copy, Debug)]
pub struct Dispatched {
    /// The position read before a move; `None` for a button command.
    pub position: Option<(i32, i32)>,
    /// The operation issued to the device, if any.
    pub issued: Option<Op>,
    pub result: Result<(), DeviceError>,
}

/// Carries out `cmd` on `device`. A move reads the position first and is
/// issued only where that read succeeds; a button command issues exactly one
/// press or release.
pub fn dispatch<D: PointerDevice>(cmd: &Command, device: &mut D) -> (r: Dispatched)
    ensures
        final(device).history() == match r.issued {
            Some(op) => old(device).history().push(op),
            None => old(device).history(),
        },
        cmd is MoveBy || r.position is None,
        r.issued == ok_op(plan_spec(*cmd, r.position)),
        plan_spec(*cmd, r.position) is Err ==> r.result == Err::<(), DeviceError>(
            plan_spec(*cmd, r.position)->Err_0,
        ),
        plan_spec(*cmd, r.position) is Ok ==> (r.result is Ok || r.result == Err::<(), DeviceError>(
            failure_of(plan_spec(*cmd, r.position)->Ok_0),
        )),
{
    let position = match *cmd {
        Command::MoveBy { .. } => device.position(),
        _ => None,
    };
    match plan(cmd, position) {
        Err(e) => Dispatched { position, issued: None, result: Err(e) },
        Ok(op) => {
            let accepted = issue(device, op);
            let result = if accepted {
                Ok(())
            } else {
                Err(
                    match op {
                        Op::MoveTo { .. } => DeviceError::MoveFailed,
                        Op::Press { button } => DeviceError::ButtonActionFailed {
                            button,
                            direction: Direction::Down,
                        },
                        Op::Release { button } => DeviceError::ButtonActionFailed {
                            button,
                            direction: Direction::Up,
                        },
                    },
                )
            };
            Dispatched { position, issued: Some(op), result }
        },
    }
}

/// The raw operations of an OS pointer, each reporting whether it succeeded.
/// Nothing is assumed of them; `Pointer` wraps one into a `PointerDevice`.
pub trait PointerBackend {
    fn position(&self) -> Option<(i32, i32)>;

    fn move_to(&mut self, x: i32, y: i32) -> bool;

    fn press(&mut self, button: Button) -> bool;

    fn release(&mut self, button: Button) -> bool;
}

/// A backend together with the history of what was handed to it: each
/// operation makes exactly one backend call and records it.
pub struct Pointer<B: PointerBackend> {
    backend: B,
    handed: Ghost<Seq<Op>>,
}

impl<B: PointerBackend> Pointer<B> {
    pub fn new(backend: B) -> (r: Self)
        ensures
            r.history() == Seq::<Op>::empty(),
    {
        Pointer { backend, handed: Ghost(Seq::empty()) }
    }

    pub fn backend(&self) -> &B {
        &self.backend
    }
}

impl<B: PointerBackend> PointerDevice for Pointer<B> {
    closed spec fn history(&self) -> Seq<Op> {
        self.handed@
    }

    fn position(&self) -> Option<(i32, i32)> {
        self.backend.position()
    }

    fn move_to(&mut self, x: i32, y: i32) -> (r: bool) {
        proof {
            self.handed@ = self.handed@.push(Op::MoveTo { x, y });
        }
        self.backend.move_to(x, y)
    }

    fn press(&mut self, button: Button) -> (r: bool) {
        proof {
            self.handed@ = self.handed@.push(Op::Press { button });
        }
        self.backend.press(button)
    }

    fn release(&mut self, button: Button) -> (r: bool) {
        proof {
            self.handed@ = self.handed@.push(Op::Release { button });
        }
        self.backend.release(button)
    }
}

/// A device that moves nothing and records every operation handed to it: it
/// reports a fixed position and accepts or refuses every operation alike.
pub struct RecordingPointer {
    position: Option<(i32, i32)>,
    accept: bool,
    ops: Vec<Op>,
}

impl RecordingPointer {
    pub fn new(position: Option<(i32, i32)>, accept: bool) -> (r: Self)
        ensures
            r.history() == Seq::<Op>::empty(),
    {
        RecordingPointer { position, accept, ops: Vec::new() }
    }

    /// The operations handed to the device so far.
    pub fn ops(&self) -> (r: &Vec<Op>)
        ensures
            r@ == self.history(),
    {
        &self.ops
    }
}

impl PointerDevice for RecordingPointer {
    closed spec fn history(&self) -> Seq<Op> {
        self.ops@
    }

    fn position(&self) -> Option<(i32, i32)> {
        self.position
    }

    fn move_to(&mut self, x: i32, y: i32) -> (r: bool) {
        self.ops.push(Op::MoveTo { x, y });
        self.accept
    }

    fn press(&mut self, button: Button) -> (r: bool) {
        self.ops.push(Op::Press { button });
        self.accept
    }

    fn release(&mut self, button: Button) -> (r: bool) {
        self.ops.push(Op::Release { button });
        self.accept
    }
}

} // verus!
