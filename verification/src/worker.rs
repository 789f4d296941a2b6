//! The worker loop as a state machine.
//!
//! The worker owns one end of each channel and a started timer. Its loop is
//! driven from outside: the driver performs the action the worker asks for
//! (poll the request channel, invoke the handler, send a response, sleep) and
//! reports what happened as the next event. Every decision of the loop is
//! made here.

use crate::error::{IOError, IOErrorKind, IOResult};
use crate::fio::{FileIOCallbackRet, FileIORequest, FileIOResponse};
use crate::timer::Timer;
use vstd::prelude::*;

verus! {

/// Milliseconds the loop sleeps between two polls of the request channel.
pub const INTERVAL: u64 = 50;

/// Where a running worker stands in its loop.
#[derive(Clone, Copy, Debug, PartialEq, Eq, Structural)]
pub enum Phase {
    /// The loop was entered and has not reached its head yet.
    Entering,
    /// A poll of the request channel is outstanding.
    Polling,
    /// A request is with the handler.
    Handling,
    /// A response is being sent.
    Forwarding,
    /// The loop pauses before it checks the deadline again.
    Sleeping,
    /// The final `Closed` message is being sent.
    Closing,
    /// The final `Timeout` message is being sent.
    Expiring,
}

/// How a worker ended.
#[derive(Clone, Copy, Debug, PartialEq, Eq, Structural)]
pub enum Termination {
    /// On request; the run succeeded.
    Closed,
    /// The deadline passed.
    TimedOut,
    /// A channel was disconnected, or the driver broke the protocol.
    Errored,
}

/// The lifecycle of a worker. A worker runs once.
#[derive(Clone, Copy, Debug, PartialEq, Eq, Structural)]
pub enum WorkerState {
    Constructed,
    Running(Phase),
    Terminated(Termination),
}

/// What the driver reports to the worker.
#[derive(Debug)]
pub enum WorkerEvent {
    /// The loop was just entered.
    Started,
    /// The poll found a request.
    Request(FileIORequest),
    /// The poll found no request pending.
    Empty,
    /// The poll found the request channel disconnected.
    Disconnected,
    /// The handler answered the request it was invoked with.
    Response(FileIOResponse),
    /// The message was sent.
    Sent,
    /// The message could not be sent: the peer is gone.
    SendFailed,
    /// The sleep is over.
    Slept,
}

/// What the worker asks of the driver.
#[derive(Debug)]
pub enum WorkerAction {
    /// Try to receive from the request channel without blocking.
    Poll,
    /// Invoke the handler on a duplicate of the resource handle.
    Invoke(FileIORequest),
    /// Send the message on the response channel.
    Send(FileIOResponse),
    /// Sleep this many milliseconds.
    Sleep(u64),
    /// Leave the loop: this is the outcome of the run.
    Finish(Result<FileIOCallbackRet, IOErrorKind>),
}

/// The step taken at the head of the loop: leave with a `Timeout` message if
/// the deadline has passed, poll otherwise.
pub open spec fn at_head(timed_out: bool) -> (WorkerState, WorkerAction) {
    if timed_out {
        (WorkerState::Running(Phase::Expiring), WorkerAction::Send(FileIOResponse::Timeout))
    } else {
        (WorkerState::Running(Phase::Polling), WorkerAction::Poll)
    }
}

/// The step taken when the handler asks to stop: the final message is
/// `Timeout` if the deadline has passed by then, `Closed` otherwise.
pub open spec fn at_exit(timed_out: bool) -> (WorkerState, WorkerAction) {
    if timed_out {
        (WorkerState::Running(Phase::Expiring), WorkerAction::Send(FileIOResponse::Timeout))
    } else {
        (WorkerState::Running(Phase::Closing), WorkerAction::Send(FileIOResponse::Closed))
    }
}

/// The step taken when a channel turns out to be disconnected.
pub open spec fn disconnected() -> (WorkerState, WorkerAction) {
    (
        WorkerState::Terminated(Termination::Errored),
        WorkerAction::Finish(Err(IOErrorKind::ChannelDisconnected)),
    )
}

/// The step taken when the driver reports an event that the phase does not
/// wait for.
pub open spec fn violated() -> (WorkerState, WorkerAction) {
    (
        WorkerState::Terminated(Termination::Errored),
        WorkerAction::Finish(Err(IOErrorKind::ProtocolViolation)),
    )
}

/// The step a running worker takes in `phase` on `event`, where `timed_out`
/// is what the timer says at that moment.
pub open spec fn next_running(phase: Phase, event: WorkerEvent, timed_out: bool) -> (
    WorkerState,
    WorkerAction,
) {
    match phase {
        Phase::Entering => match event {
            WorkerEvent::Started => at_head(timed_out),
            _ => violated(),
        },
        Phase::Polling => match event {
            WorkerEvent::Request(req) => (
                WorkerState::Running(Phase::Handling),
                WorkerAction::Invoke(req),
            ),
            WorkerEvent::Empty => (
                WorkerState::Running(Phase::Sleeping),
                WorkerAction::Sleep(INTERVAL),
            ),
            WorkerEvent::Disconnected => disconnected(),
            _ => violated(),
        },
        Phase::Handling => match event {
            WorkerEvent::Response(res) => if res is Closed {
                at_exit(timed_out)
            } else {
                (WorkerState::Running(Phase::Forwarding), WorkerAction::Send(res))
            },
            _ => violated(),
        },
        Phase::Forwarding => match event {
            WorkerEvent::Sent => (
                WorkerState::Running(Phase::Sleeping),
                WorkerAction::Sleep(INTERVAL),
            ),
            WorkerEvent::SendFailed => disconnected(),
            _ => violated(),
        },
        Phase::Sleeping => match event {
            WorkerEvent::Slept => at_head(timed_out),
            _ => violated(),
        },
        Phase::Closing => match event {
            WorkerEvent::Sent => (
                WorkerState::Terminated(Termination::Closed),
                WorkerAction::Finish(Ok(())),
            ),
            WorkerEvent::SendFailed => disconnected(),
            _ => violated(),
        },
        Phase::Expiring => match event {
            WorkerEvent::Sent => (
                WorkerState::Terminated(Termination::TimedOut),
                WorkerAction::Finish(Err(IOErrorKind::Timeout)),
            ),
            WorkerEvent::SendFailed => disconnected(),
            _ => violated(),
        },
    }
}

/// The transition function of the worker: the state after `event` and the
/// action asked of the driver, where `timed_out` is what the timer says at
/// that moment.
///
/// A worker that was not run yet answers every event with `NotStarted`, a
/// terminated one with `AlreadyUsed`; neither changes state.
pub open spec fn next(state: WorkerState, event: WorkerEvent, timed_out: bool) -> (
    WorkerState,
    WorkerAction,
) {
    match state {
        WorkerState::Constructed => (state, WorkerAction::Finish(Err(IOErrorKind::NotStarted))),
        WorkerState::Terminated(_) => (state, WorkerAction::Finish(Err(IOErrorKind::AlreadyUsed))),
        WorkerState::Running(phase) => next_running(phase, event, timed_out),
    }
}

/// Whether the step on `event` in `state` depends on the timer: at the head
/// of the loop, and when the handler asks to stop.
pub open spec fn consults_clock(state: WorkerState, event: WorkerEvent) -> bool {
    match state {
        WorkerState::Running(Phase::Entering) => event is Started,
        WorkerState::Running(Phase::Sleeping) => event is Slept,
        WorkerState::Running(Phase::Handling) => event matches WorkerEvent::Response(res)
            && res is Closed,
        _ => false,
    }
}

fn head_step(timed_out: bool) -> (r: (WorkerState, WorkerAction))
    ensures
        r == at_head(timed_out),
{
    if timed_out {
        (WorkerState::Running(Phase::Expiring), WorkerAction::Send(FileIOResponse::Timeout))
    } else {
        (WorkerState::Running(Phase::Polling), WorkerAction::Poll)
    }
}

fn exit_step(timed_out: bool) -> (r: (WorkerState, WorkerAction))
    ensures
        r == at_exit(timed_out),
{
    if timed_out {
        (WorkerState::Running(Phase::Expiring), WorkerAction::Send(FileIOResponse::Timeout))
    } else {
        (WorkerState::Running(Phase::Closing), WorkerAction::Send(FileIOResponse::Closed))
    }
}

fn disconnected_step() -> (r: (WorkerState, WorkerAction))
    ensures
        r == disconnected(),
{
    (
        WorkerState::Terminated(Termination::Errored),
        WorkerAction::Finish(Err(IOErrorKind::ChannelDisconnected)),
    )
}

fn violated_step() -> (r: (WorkerState, WorkerAction))
    ensures
        r == violated(),
{
    (
        WorkerState::Terminated(Termination::Errored),
        WorkerAction::Finish(Err(IOErrorKind::ProtocolViolation)),
    )
}

fn running_step(phase: Phase, event: WorkerEvent, timed_out: bool) -> (r: (
    WorkerState,
    WorkerAction,
))
    ensures
        r == next_running(phase, event, timed_out),
{
    match phase {
        Phase::Entering => match event {
            WorkerEvent::Started => head_step(timed_out),
            _ => violated_step(),
        },
        Phase::Polling => match event {
            WorkerEvent::Request(req) => (
                WorkerState::Running(Phase::Handling),
                WorkerAction::Invoke(req),
            ),
            WorkerEvent::Empty => (
                WorkerState::Running(Phase::Sleeping),
                WorkerAction::Sleep(INTERVAL),
            ),
            WorkerEvent::Disconnected => disconnected_step(),
            _ => violated_step(),
        },
        Phase::Handling => match event {
            WorkerEvent::Response(res) => match res {
                FileIOResponse::Closed => exit_step(timed_out),
                res => (WorkerState::Running(Phase::Forwarding), WorkerAction::Send(res)),
            },
            _ => violated_step(),
        },
        Phase::Forwarding => match event {
            WorkerEvent::Sent => (
                WorkerState::Running(Phase::Sleeping),
                WorkerAction::Sleep(INTERVAL),
            ),
            WorkerEvent::SendFailed => disconnected_step(),
            _ => violated_step(),
        },
        Phase::Sleeping => match event {
            WorkerEvent::Slept => head_step(timed_out),
            _ => violated_step(),
        },
        Phase::Closing => match event {
            WorkerEvent::Sent => (
                WorkerState::Terminated(Termination::Closed),
                WorkerAction::Finish(Ok(())),
            ),
            WorkerEvent::SendFailed => disconnected_step(),
            _ => violated_step(),
        },
        Phase::Expiring => match event {
            WorkerEvent::Sent => (
                WorkerState::Terminated(Termination::TimedOut),
                WorkerAction::Finish(Err(IOErrorKind::Timeout)),
            ),
            WorkerEvent::SendFailed => disconnected_step(),
            _ => violated_step(),
        },
    }
}

/// Computes [`next`].
pub fn decide(state: WorkerState, event: WorkerEvent, timed_out: bool) -> (r: (
    WorkerState,
    WorkerAction,
))
    ensures
        r == next(state, event, timed_out),
{
    match state {
        WorkerState::Constructed => (state, WorkerAction::Finish(Err(IOErrorKind::NotStarted))),
        WorkerState::Terminated(_) => (state, WorkerAction::Finish(Err(IOErrorKind::AlreadyUsed))),
        WorkerState::Running(phase) => running_step(phase, event, timed_out),
    }
}

/// Computes [`consults_clock`].
pub fn needs_clock(state: WorkerState, event: &WorkerEvent) -> (b: bool)
    ensures
        b == consults_clock(state, *event),
{
    match state {
        WorkerState::Running(phase) => match phase {
            Phase::Entering => match event {
                WorkerEvent::Started => true,
                _ => false,
            },
            Phase::Sleeping => match event {
                WorkerEvent::Slept => true,
                _ => false,
            },
            Phase::Handling => match event {
                WorkerEvent::Response(res) => match res {
                    FileIOResponse::Closed => true,
                    _ => false,
                },
                _ => false,
            },
            _ => false,
        },
        _ => false,
    }
}

/// A loop that is entered once and then driven from outside, one event at a
/// time. `SendMsg` is what the loop sends, `RecvMsg` what it receives, `Ret`
/// what a successful run gives.
pub trait Loop<SendMsg, RecvMsg, Ret>: Sized {
    /// What the driver reports to the loop.
    type In;

    /// What the loop asks of the driver.
    type Out;

    /// What moves out to the driver when the loop is entered.
    type Ends;

    /// Whether the loop can still be entered.
    spec fn runnable(&self) -> bool;

    /// Enters the loop. A loop that cannot be entered any more fails with
    /// `AlreadyUsed` and is not changed.
    fn run(&mut self) -> (r: IOResult<Self::Ends>)
        ensures
            r is Ok <==> old(self).runnable(),
            r is Ok ==> !final(self).runnable(),
            r is Err ==> r->Err_0.plain(IOErrorKind::AlreadyUsed) && *final(self) == *old(self),
    ;

    /// Takes one step of the loop on what the driver reports.
    fn step(&mut self, event: Self::In) -> (action: Self::Out);
}

/// Moves the value out of `slot` and leaves it empty.
pub(crate) fn take_out<T>(slot: &mut Option<T>) -> (taken: Option<T>)
    ensures
        taken == *old(slot),
        *final(slot) is None,
    no_unwind
{
    let mut taken: Option<T> = None;
    core::mem::swap(slot, &mut taken);
    taken
}

/// A worker: the sending end of the response channel, the receiving end of
/// the request channel, a started timer, and where it stands in its life.
pub struct Worker<Tx, Rx> {
    tx: Option<Tx>,
    rx: Option<Rx>,
    timer: Timer,
    state: WorkerState,
}

impl<Tx, Rx> Worker<Tx, Rx> {
    /// The deadline of a worker is a started timer.
    #[verifier::type_invariant]
    spec fn armed(self) -> bool {
        self.timer.started()
    }

    pub closed spec fn state(&self) -> WorkerState {
        self.state
    }

    /// The timer the worker was made with.
    pub closed spec fn deadline(&self) -> Timer {
        self.timer
    }

    /// The sending end of the response channel, while the worker holds it.
    pub closed spec fn response_out(&self) -> Option<Tx> {
        self.tx
    }

    /// The receiving end of the request channel, while the worker holds it.
    pub closed spec fn request_in(&self) -> Option<Rx> {
        self.rx
    }

    /// Whether the worker can still be run: it never ran and holds both
    /// channel ends.
    pub open spec fn unused(&self) -> bool {
        &&& self.state() == WorkerState::Constructed
        &&& self.response_out() is Some
        &&& self.request_in() is Some
    }

    /// A worker around the two channel ends and a deadline. Fails with
    /// `NotStarted`, "timer has not been started.", if the timer has not been
    /// started.
    pub fn new(tx: Tx, rx: Rx, timer: Timer) -> (r: IOResult<Self>)
        ensures
            r is Ok <==> timer.started(),
            r is Ok ==> {
                &&& r->Ok_0.state() == WorkerState::Constructed
                &&& r->Ok_0.response_out() == Some(tx)
                &&& r->Ok_0.request_in() == Some(rx)
                &&& r->Ok_0.deadline() == timer
            },
            r is Err ==> r->Err_0.says(IOErrorKind::NotStarted, "timer has not been started."@),
    {
        if !timer.is_started() {
            Err(IOError::new(IOErrorKind::NotStarted, "timer has not been started."))
        } else {
            Ok(Worker { tx: Some(tx), rx: Some(rx), timer, state: WorkerState::Constructed })
        }
    }

    /// Takes the sending end out of the worker.
    pub fn sender(&mut self) -> (tx: Option<Tx>)
        ensures
            tx == old(self).response_out(),
            final(self).response_out() is None,
            final(self).request_in() == old(self).request_in(),
            final(self).deadline() == old(self).deadline(),
            final(self).state() == old(self).state(),
    {
        proof {
            use_type_invariant(&*self);
        }
        take_out(&mut self.tx)
    }

    /// Takes the receiving end out of the worker.
    pub fn receiver(&mut self) -> (rx: Option<Rx>)
        ensures
            rx == old(self).request_in(),
            final(self).request_in() is None,
            final(self).response_out() == old(self).response_out(),
            final(self).deadline() == old(self).deadline(),
            final(self).state() == old(self).state(),
    {
        proof {
            use_type_invariant(&*self);
        }
        take_out(&mut self.rx)
    }

    /// A copy of the worker's timer, which is started.
    pub fn timer(&self) -> (t: Timer)
        ensures
            t == self.deadline(),
            t.started(),
    {
        proof {
            use_type_invariant(self);
        }
        self.timer
    }

    /// Where the worker stands.
    pub fn current(&self) -> (s: WorkerState)
        ensures
            s == self.state(),
    {
        self.state
    }

    /// Takes the step [`next`] on `event`, given what the timer says.
    pub fn step_at(&mut self, event: WorkerEvent, timed_out: bool) -> (action: WorkerAction)
        ensures
            (final(self).state(), action) == next(old(self).state(), event, timed_out),
            final(self).response_out() == old(self).response_out(),
            final(self).request_in() == old(self).request_in(),
            final(self).deadline() == old(self).deadline(),
    {
        proof {
            use_type_invariant(&*self);
        }
        let (state, action) = decide(self.state, event, timed_out);
        self.state = state;
        action
    }
}

impl<Tx, Rx> Loop<FileIOResponse, FileIORequest, FileIOCallbackRet> for Worker<Tx, Rx> {
    type In = WorkerEvent;

    type Out = WorkerAction;

    type Ends = (Tx, Rx);

    open spec fn runnable(&self) -> bool {
        self.unused()
    }

    /// Enters the loop. The channel ends move out to the driver and the
    /// worker waits for the `Started` event. A worker that ran before, or
    /// that no longer holds both ends, fails with `AlreadyUsed` and is not
    /// changed.
    fn run(&mut self) -> (r: IOResult<(Tx, Rx)>)
        ensures
            r is Ok ==> {
                &&& Some(r->Ok_0.0) == old(self).response_out()
                &&& Some(r->Ok_0.1) == old(self).request_in()
                &&& final(self).response_out() is None
                &&& final(self).request_in() is None
                &&& final(self).state() == WorkerState::Running(Phase::Entering)
                &&& final(self).deadline() == old(self).deadline()
            },
            r is Err ==> r->Err_0.plain(IOErrorKind::AlreadyUsed) && *final(self) == *old(self),
    {
        proof {
            use_type_invariant(&*self);
        }
        let fresh: bool = match self.state {
            WorkerState::Constructed => self.tx.is_some() && self.rx.is_some(),
            _ => false,
        };
        if !fresh {
            return Err(IOError::from_kind(IOErrorKind::AlreadyUsed));
        }
        let tx: Tx = take_out(&mut self.tx).unwrap();
        let rx: Rx = take_out(&mut self.rx).unwrap();
        self.state = WorkerState::Running(Phase::Entering);
        Ok((tx, rx))
    }

    /// Takes the step [`next`] on `event`. Where the step depends on the
    /// deadline the worker's timer is sampled; elsewhere the clock is not
    /// read.
    fn step(&mut self, event: WorkerEvent) -> (action: WorkerAction)
        ensures
            exists|timed_out: bool|
                (final(self).state(), action) == #[trigger] next(
                    old(self).state(),
                    event,
                    timed_out,
                ),
            !consults_clock(old(self).state(), event) ==> (final(self).state(), action) == next(
                old(self).state(),
                event,
                false,
            ),
            final(self).response_out() == old(self).response_out(),
            final(self).request_in() == old(self).request_in(),
            final(self).deadline() == old(self).deadline(),
    {
        proof {
            use_type_invariant(&*self);
        }
        let timed_out: bool = if needs_clock(self.state, &event) {
            match self.timer.is_timeout() {
                Ok(passed) => passed,
                Err(_) => {
                    // The worker's timer is started: sampling it cannot fail.
                    proof {
                        assert(false);
                    }
                    true
                },
            }
        } else {
            false
        };
        self.step_at(event, timed_out)
    }
}

} // verus!
