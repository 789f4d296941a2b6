//! The file resource: its request/response vocabulary and the handler that
//! turns one request into one response.

use crate::buffer::{filled, zeroed, ReadBuffer, READBUF_ALIGN};
use crate::error::{IOError, IOErrorKind, IOResult};
use crate::timer::Timer;
use crate::worker::take_out;
use vstd::prelude::*;

verus! {

/// What the handler gives back to the loop besides its response.
pub type FileIOCallbackRet = ();

/// A request of the controller to the worker that owns the file.
#[derive(Clone, Copy, Debug, PartialEq, Eq, Structural)]
pub enum FileIORequest {
    /// Read up to this many bytes from the current position.
    Read(usize),
    /// End the session.
    Close,
}

/// A response of the worker to the controller.
#[derive(Debug)]
pub enum FileIOResponse {
    /// The buffer a `Read` request was read into.
    Read(ReadBuffer),
    /// The read failed; the session goes on.
    Failed(IOError),
    /// The session ended on request.
    Closed,
    /// The session ended because the deadline passed.
    Timeout,
}

impl FileIORequest {
    /// How many bytes the request asks of the file.
    pub open spec fn wanted_bytes(self) -> nat {
        match self {
            FileIORequest::Read(n) => n as nat,
            FileIORequest::Close => 0,
        }
    }

    /// How many bytes the request asks of the file: what the caller should
    /// try to read before handing the outcome to [`handle_fio_request`].
    pub fn wanted(&self) -> (n: usize)
        ensures
            n == self.wanted_bytes(),
    {
        match self {
            FileIORequest::Read(n) => *n,
            FileIORequest::Close => 0,
        }
    }
}

/// Whether `res` is the response owed to `req` when the attempt to read the
/// file ended as `input`.
///
/// `Close` is answered by `Closed`, whatever was read. `Read(n)` is answered
/// by the failure itself if the read failed, and otherwise by a buffer of
/// exactly `n` bytes with alignment 1 that begins with the bytes read (at
/// most `n` of them) and is zero after them.
pub open spec fn answers(input: IOResult<Seq<u8>>, req: FileIORequest, res: FileIOResponse) -> bool {
    match req {
        FileIORequest::Close => res is Closed,
        FileIORequest::Read(n) => match input {
            Err(e) => res == FileIOResponse::Failed(e),
            Ok(bytes) => {
                &&& res is Read
                &&& res->Read_0@ == filled(zeroed(n as nat), bytes)
                &&& res->Read_0.alignment() == READBUF_ALIGN
            },
        },
    }
}

/// The outcome of a read with the bytes taken by their view.
pub open spec fn input_view(input: IOResult<Vec<u8>>) -> IOResult<Seq<u8>> {
    match input {
        Ok(bytes) => Ok(bytes@),
        Err(e) => Err(e),
    }
}

/// Answers one request. `input` is how the attempt to read
/// `req.wanted()` bytes from the file ended: the bytes that came, or the
/// failure.
pub fn handle_fio_request(input: IOResult<Vec<u8>>, req: FileIORequest) -> (res: FileIOResponse)
    ensures
        answers(input_view(input), req, res),
{
    match req {
        FileIORequest::Read(n) => {
            match input {
                Err(e) => FileIOResponse::Failed(e),
                Ok(bytes) => {
                    let mut buf = ReadBuffer::new(n);
                    buf.read(bytes.as_slice());
                    FileIOResponse::Read(buf)
                },
            }
        },
        FileIORequest::Close => FileIOResponse::Closed,
    }
}

/// A `Read` request is never answered by `Closed` or `Timeout`: only a
/// `Close` request ends the session from the handler's side.
pub proof fn lemma_read_never_answered_closed(
    input: IOResult<Seq<u8>>,
    n: usize,
    res: FileIOResponse,
)
    requires
        answers(input, FileIORequest::Read(n), res),
    ensures
        res is Read || res is Failed,
        res is Read <==> input is Ok,
{
}

/// The lifecycle of the controller's handle on a file.
#[derive(Clone, Copy, Debug, PartialEq, Eq, Structural)]
pub enum Lifecycle {
    /// No thread yet; the timer is unset.
    Idle,
    /// The timer runs; the worker thread is being spawned.
    Starting,
    /// The worker thread runs; the handle holds it and its channel ends.
    Started,
    /// The session was closed and the thread handle let go.
    Stopped,
    /// The worker thread was joined.
    Joined,
}

/// Whether a session in `state` is running: `Ok` when started, and otherwise
/// the category of the error owed to an operation that needs a running
/// session.
pub open spec fn running(state: Lifecycle) -> Result<(), IOErrorKind> {
    match state {
        Lifecycle::Started => Ok(()),
        Lifecycle::Idle | Lifecycle::Starting => Err(IOErrorKind::NotStarted),
        Lifecycle::Stopped | Lifecycle::Joined => Err(IOErrorKind::AlreadyStopped),
    }
}

/// Whether a start may go ahead on a handle in `state`, given whether the
/// file could be opened.
pub open spec fn startable(state: Lifecycle, opened: bool) -> Result<(), IOErrorKind> {
    if state != Lifecycle::Idle {
        Err(IOErrorKind::AlreadyStarted)
    } else if !opened {
        Err(IOErrorKind::OpenFailure)
    } else {
        Ok(())
    }
}

/// The state in which a stop that was completed with `reply` leaves a handle
/// that was in `state`: stopped where a running session got `Closed`, and as
/// it was otherwise.
pub open spec fn after_stop(state: Lifecycle, reply: IOResult<FileIOResponse>) -> Lifecycle {
    if running(state) is Ok && reply is Ok && reply->Ok_0 is Closed {
        Lifecycle::Stopped
    } else {
        state
    }
}

/// The controller's handle on a file that a worker thread serves: the file's
/// name, the deadline, and, while the session runs, the thread handle and the
/// controller's ends of the two channels.
///
/// The handle decides; it neither spawns nor blocks. `H` is the thread
/// handle, `Tx` the sending end of the request channel, `Rx` the receiving
/// end of the response channel.
pub struct FileIO<H, Tx, Rx> {
    name: String,
    handle: Option<H>,
    ends: Option<(Tx, Rx)>,
    timer: Timer,
    joined: bool,
}

impl<H, Tx, Rx> FileIO<H, Tx, Rx> {
    /// A thread handle comes with channel ends, channel ends with a started
    /// timer, and a joined session has its ends and no thread handle.
    #[verifier::type_invariant]
    spec fn coherent(self) -> bool {
        &&& self.handle is Some ==> self.ends is Some
        &&& self.ends is Some ==> self.timer.started()
        &&& self.joined ==> self.ends is Some && self.handle is None
    }

    /// Where the handle stands, as its parts tell.
    pub closed spec fn lifecycle(&self) -> Lifecycle {
        if !self.timer.started() {
            Lifecycle::Idle
        } else if self.ends is None {
            Lifecycle::Starting
        } else if self.handle is Some {
            Lifecycle::Started
        } else if self.joined {
            Lifecycle::Joined
        } else {
            Lifecycle::Stopped
        }
    }

    /// The name of the file.
    pub closed spec fn identity(&self) -> Seq<char> {
        self.name@
    }

    /// The handle's timer.
    pub closed spec fn deadline(&self) -> Timer {
        self.timer
    }

    /// The thread handle, while the handle holds one.
    pub closed spec fn thread(&self) -> Option<H> {
        self.handle
    }

    /// The sending end of the request channel, once attached.
    pub closed spec fn request_out(&self) -> Option<Tx> {
        match self.ends {
            Some(ends) => Some(ends.0),
            None => None,
        }
    }

    /// The receiving end of the response channel, once attached.
    pub closed spec fn response_in(&self) -> Option<Rx> {
        match self.ends {
            Some(ends) => Some(ends.1),
            None => None,
        }
    }

    /// Whether the handle holds what its state asks for: a thread handle
    /// exactly while started, and channel ends from then on.
    pub open spec fn populated(&self) -> bool {
        &&& self.thread() is Some <==> self.lifecycle() == Lifecycle::Started
        &&& self.request_out() is Some <==> (self.lifecycle() != Lifecycle::Idle
            && self.lifecycle() != Lifecycle::Starting)
        &&& self.response_in() is Some <==> self.request_out() is Some
        &&& self.deadline().started() <==> self.lifecycle() != Lifecycle::Idle
    }

    /// An idle handle on the file `name` with an unset timer of `secs`
    /// seconds and `nanos` nanoseconds.
    pub fn new(name: String, secs: u64, nanos: u32) -> (io: Self)
        ensures
            io.lifecycle() == Lifecycle::Idle,
            io.identity() == name@,
            io.deadline().timeout_nanos() == secs * 1_000_000_000 + nanos,
            io.populated(),
    {
        FileIO { name, handle: None, ends: None, timer: Timer::new(secs, nanos), joined: false }
    }

    /// The name of the file.
    pub fn name(&self) -> (name: &String)
        ensures
            name@ == self.identity(),
    {
        &self.name
    }

    /// Where the handle stands.
    pub fn state(&self) -> (state: Lifecycle)
        ensures
            state == self.lifecycle(),
            self.populated(),
    {
        proof {
            use_type_invariant(self);
        }
        if !self.timer.is_started() {
            Lifecycle::Idle
        } else if self.ends.is_none() {
            Lifecycle::Starting
        } else if self.handle.is_some() {
            Lifecycle::Started
        } else if self.joined {
            Lifecycle::Joined
        } else {
            Lifecycle::Stopped
        }
    }

    /// A copy of the timer: unset while idle, started from then on.
    pub fn timer(&self) -> (t: Timer)
        ensures
            t == self.deadline(),
            t.started() <==> self.lifecycle() != Lifecycle::Idle,
    {
        self.timer
    }

    /// The sending end of the request channel: present once the session has
    /// been started, and from then on.
    pub fn sender(&self) -> (tx: Option<&Tx>)
        ensures
            tx is Some <==> self.request_out() is Some,
            tx is Some ==> *tx->Some_0 == self.request_out()->Some_0,
            self.populated(),
    {
        proof {
            use_type_invariant(self);
        }
        match &self.ends {
            Some(ends) => Some(&ends.0),
            None => None,
        }
    }

    /// The receiving end of the response channel: present once the session
    /// has been started, and from then on.
    pub fn receiver(&self) -> (rx: Option<&Rx>)
        ensures
            rx is Some <==> self.response_in() is Some,
            rx is Some ==> *rx->Some_0 == self.response_in()->Some_0,
            self.populated(),
    {
        proof {
            use_type_invariant(self);
        }
        match &self.ends {
            Some(ends) => Some(&ends.1),
            None => None,
        }
    }

    /// The end to send a request on. Fails with `NotStarted`, "no sender",
    /// before the session has been started.
    pub fn sending_end(&self) -> (r: IOResult<&Tx>)
        ensures
            r is Ok <==> self.request_out() is Some,
            r is Ok ==> *r->Ok_0 == self.request_out()->Some_0,
            r is Err ==> r->Err_0.says(IOErrorKind::NotStarted, "no sender"@),
            self.populated(),
    {
        match self.sender() {
            Some(tx) => Ok(tx),
            None => Err(IOError::new(IOErrorKind::NotStarted, "no sender")),
        }
    }

    /// The end to receive a response on. Fails with `NotStarted`, "no
    /// receiver", before the session has been started.
    pub fn receiving_end(&self) -> (r: IOResult<&Rx>)
        ensures
            r is Ok <==> self.response_in() is Some,
            r is Ok ==> *r->Ok_0 == self.response_in()->Some_0,
            r is Err ==> r->Err_0.says(IOErrorKind::NotStarted, "no receiver"@),
            self.populated(),
    {
        match self.receiver() {
            Some(rx) => Ok(rx),
            None => Err(IOError::new(IOErrorKind::NotStarted, "no receiver")),
        }
    }

    /// Begins a start. `opened` says whether the file could be opened.
    ///
    /// On an idle handle whose file was opened the timer is started and a
    /// copy of it comes back for the worker; the handle waits for
    /// [`FileIO::attach`]. A handle that is not idle fails with
    /// `AlreadyStarted`, an idle one whose file could not be opened with
    /// `OpenFailure`; neither is changed.
    pub fn start(&mut self, opened: bool) -> (r: IOResult<Timer>)
        ensures
            match startable(old(self).lifecycle(), opened) {
                Ok(_) => {
                    &&& r is Ok
                    &&& r->Ok_0.started()
                    &&& r->Ok_0.timeout_nanos() == old(self).deadline().timeout_nanos()
                    &&& final(self).deadline() == r->Ok_0
                    &&& final(self).lifecycle() == Lifecycle::Starting
                    &&& final(self).identity() == old(self).identity()
                    &&& final(self).populated()
                },
                Err(kind) => r is Err && r->Err_0.plain(kind) && *final(self) == *old(self),
            },
    {
        proof {
            use_type_invariant(&*self);
        }
        if self.timer.is_started() {
            return Err(IOError::from_kind(IOErrorKind::AlreadyStarted));
        }
        if !opened {
            return Err(IOError::from_kind(IOErrorKind::OpenFailure));
        }
        let mut timer: Timer = self.timer;
        match timer.start() {
            Ok(_) => {
                self.timer = timer;
                Ok(timer)
            },
            Err(e) => Err(e),
        }
    }

    /// Completes a start: the handle takes the thread handle and the
    /// controller's channel ends, and the session runs. Fails, changing
    /// nothing, unless a start was begun: with `NotStarted` on an idle
    /// handle, with `AlreadyStarted` on one that was started before.
    pub fn attach(&mut self, handle: H, tx: Tx, rx: Rx) -> (r: IOResult<()>)
        ensures
            r is Ok <==> old(self).lifecycle() == Lifecycle::Starting,
            r is Ok ==> {
                &&& final(self).lifecycle() == Lifecycle::Started
                &&& final(self).thread() == Some(handle)
                &&& final(self).request_out() == Some(tx)
                &&& final(self).response_in() == Some(rx)
                &&& final(self).deadline() == old(self).deadline()
                &&& final(self).identity() == old(self).identity()
            },
            r is Err ==> *final(self) == *old(self) && r->Err_0.plain(
                if old(self).lifecycle() == Lifecycle::Idle {
                    IOErrorKind::NotStarted
                } else {
                    IOErrorKind::AlreadyStarted
                },
            ),
    {
        proof {
            use_type_invariant(&*self);
        }
        if !self.timer.is_started() {
            Err(IOError::from_kind(IOErrorKind::NotStarted))
        } else if self.ends.is_some() {
            Err(IOError::from_kind(IOErrorKind::AlreadyStarted))
        } else {
            self.ends = Some((tx, rx));
            self.handle = Some(handle);
            Ok(())
        }
    }

    /// Fails unless the session is running: with `NotStarted` before it was
    /// started, with `AlreadyStopped` after it was stopped or joined.
    pub fn check_running(&self) -> (r: IOResult<()>)
        ensures
            match running(self.lifecycle()) {
                Ok(_) => r is Ok,
                Err(kind) => r is Err && r->Err_0.plain(kind),
            },
    {
        match self.state() {
            Lifecycle::Started => Ok(()),
            Lifecycle::Idle | Lifecycle::Starting => Err(
                IOError::from_kind(IOErrorKind::NotStarted),
            ),
            Lifecycle::Stopped | Lifecycle::Joined => Err(
                IOError::from_kind(IOErrorKind::AlreadyStopped),
            ),
        }
    }

    /// Begins a stop: on a running session, the `Close` request to send. On
    /// any other handle the stop fails at once, nothing is to be sent and
    /// nothing to be waited for. The handle is not changed.
    pub fn stop(&self) -> (r: IOResult<FileIORequest>)
        ensures
            match running(self.lifecycle()) {
                Ok(_) => r == Ok::<FileIORequest, IOError>(FileIORequest::Close),
                Err(kind) => r is Err && r->Err_0.plain(kind),
            },
    {
        match self.check_running() {
            Ok(_) => Ok(FileIORequest::Close),
            Err(e) => Err(e),
        }
    }

    /// Completes a stop with the one response that was waited for, or the
    /// failure to send or receive.
    ///
    /// On a running session a `Closed` response ends it: the thread handle
    /// is let go without joining. Any other response is a
    /// `ProtocolViolation`, and a failure is handed back as it is; both leave
    /// the handle as it was, and so does a handle with no running session.
    pub fn stopped(&mut self, reply: IOResult<FileIOResponse>) -> (r: IOResult<()>)
        ensures
            final(self).lifecycle() == after_stop(old(self).lifecycle(), reply),
            match running(old(self).lifecycle()) {
                Err(kind) => r is Err && r->Err_0.plain(kind) && *final(self) == *old(self),
                Ok(_) => match reply {
                    Ok(FileIOResponse::Closed) => {
                        &&& r is Ok
                        &&& final(self).thread() is None
                        &&& final(self).request_out() == old(self).request_out()
                        &&& final(self).response_in() == old(self).response_in()
                        &&& final(self).deadline() == old(self).deadline()
                        &&& final(self).identity() == old(self).identity()
                    },
                    Ok(_) => r is Err && r->Err_0.plain(IOErrorKind::ProtocolViolation)
                        && *final(self) == *old(self),
                    Err(e) => r == Err::<(), IOError>(e) && *final(self) == *old(self),
                },
            },
    {
        proof {
            use_type_invariant(&*self);
        }
        match self.check_running() {
            Err(e) => Err(e),
            Ok(_) => match reply {
                Ok(res) => match res {
                    FileIOResponse::Closed => {
                        let _ = take_out(&mut self.handle);
                        Ok(())
                    },
                    _ => Err(IOError::from_kind(IOErrorKind::ProtocolViolation)),
                },
                Err(e) => Err(e),
            },
        }
    }

    /// Hands out the thread handle of a running session for joining, and
    /// marks the session joined. Fails, changing nothing, where no session is
    /// running and so no thread handle is held: "no thread handle", with
    /// `NotStarted` before the start and `AlreadyStopped` after a stop or a
    /// join.
    pub fn join(&mut self) -> (r: IOResult<H>)
        ensures
            match running(old(self).lifecycle()) {
                Ok(_) => {
                    &&& r is Ok
                    &&& Some(r->Ok_0) == old(self).thread()
                    &&& final(self).lifecycle() == Lifecycle::Joined
                    &&& final(self).thread() is None
                    &&& final(self).request_out() == old(self).request_out()
                    &&& final(self).response_in() == old(self).response_in()
                    &&& final(self).deadline() == old(self).deadline()
                    &&& final(self).identity() == old(self).identity()
                },
                Err(kind) => r is Err && r->Err_0.says(kind, "no thread handle"@) && *final(self)
                    == *old(self),
            },
    {
        proof {
            use_type_invariant(&*self);
        }
        match self.check_running() {
            Err(e) => Err(IOError::new(e.kind(), "no thread handle")),
            Ok(_) => {
                let handle: H = take_out(&mut self.handle).unwrap();
                self.joined = true;
                Ok(handle)
            },
        }
    }
}

/// The outcome of a join: the worker's own outcome where its thread ran to
/// the end, and an error of category `Other` where it ended abruptly
/// (`None`).
pub fn join_outcome(ended: Option<IOResult<()>>) -> (r: IOResult<()>)
    ensures
        match ended {
            Some(outcome) => r == outcome,
            None => r is Err && r->Err_0.plain(IOErrorKind::Other),
        },
{
    match ended {
        Some(outcome) => outcome,
        None => Err(IOError::from_kind(IOErrorKind::Other)),
    }
}

/// A second stop fails at once. A stop that a running session answers with
/// `Closed` leaves the handle stopped; a stopped handle is not running, so
/// both halves of any later stop fail with `AlreadyStopped` before anything
/// is sent or waited for, and the handle stays stopped whatever the reply.
pub proof fn lemma_second_stop_fails(reply: IOResult<FileIOResponse>)
    ensures
        running(after_stop(Lifecycle::Started, Ok(FileIOResponse::Closed))) == Err::<
            (),
            IOErrorKind,
        >(IOErrorKind::AlreadyStopped),
        after_stop(Lifecycle::Stopped, reply) == Lifecycle::Stopped,
{
}

} // verus!
