use io_worker::buffer::BufferLoader;
use io_worker::error::{io_error, IOError, IOErrorKind, IOResult, IO_ERROR};
use io_worker::fio::{
    handle_fio_request, join_outcome, FileIO, FileIORequest, FileIOResponse, Lifecycle,
};
use io_worker::timer::Timer;
use io_worker::worker::{Loop, Termination, Worker, WorkerAction, WorkerEvent, WorkerState};
use std::str::from_utf8;
use std::sync::mpsc::{channel, Receiver, Sender, TryRecvError};

const RIFF: &str = "RIFF";
const RIFF_FIELD_SIZE: usize = 4;

const ERROR_MESSAGE_1: &str = "read response is expected";
const ERROR_MESSAGE_2: &str = "closed response is expected";

type Handle = FileIO<u32, &'static str, &'static str>;

fn wave_file() -> Vec<u8> {
    let mut bytes = Vec::new();
    bytes.extend_from_slice(b"RIFF");
    bytes.extend_from_slice(&[0x24, 0x08, 0x00, 0x00]);
    bytes.extend_from_slice(b"WAVEfmt ");
    bytes
}

fn read_up_to(file: &[u8], n: usize) -> IOResult<Vec<u8>> {
    Ok(file[..n.min(file.len())].to_vec())
}

fn started() -> Handle {
    let mut io = Handle::new("sound.wav".to_string(), 10, 0);
    io.start(true).unwrap();
    io.attach(7, "requests", "responses").unwrap();
    io
}

#[test]
fn handler_test() {
    let f = wave_file();

    let req = FileIORequest::Read(RIFF_FIELD_SIZE);
    let res = handle_fio_request(read_up_to(&f, req.wanted()), req);

    match res {
        FileIOResponse::Read(buf) => {
            let riff = from_utf8(buf.load()).unwrap();
            assert_eq!(RIFF, riff);
        }
        _ => panic!("{}", ERROR_MESSAGE_1),
    }

    let req = FileIORequest::Close;
    match handle_fio_request(read_up_to(&f, req.wanted()), req) {
        FileIOResponse::Closed => (),
        _ => panic!("{}", ERROR_MESSAGE_2),
    }
}

#[test]
fn request_asks_for_its_byte_count() {
    assert_eq!(FileIORequest::Read(4).wanted(), 4);
    assert_eq!(FileIORequest::Read(0).wanted(), 0);
    assert_eq!(FileIORequest::Close.wanted(), 0);
}

#[test]
fn short_read_is_answered_with_a_full_size_buffer() {
    match handle_fio_request(Ok(b"RI".to_vec()), FileIORequest::Read(4)) {
        FileIOResponse::Read(buf) => {
            assert_eq!(buf.size(), 4);
            assert_eq!(buf.align(), 1);
            assert_eq!(buf.load(), &[b'R', b'I', 0, 0]);
        }
        _ => panic!("{}", ERROR_MESSAGE_1),
    }
}

#[test]
fn surplus_input_is_cut_at_the_requested_size() {
    match handle_fio_request(Ok(b"RIFFWAVE".to_vec()), FileIORequest::Read(4)) {
        FileIOResponse::Read(buf) => assert_eq!(buf.load(), b"RIFF"),
        _ => panic!("{}", ERROR_MESSAGE_1),
    }
}

#[test]
fn failed_read_is_answered_with_the_failure() {
    let failure = IOError::new(IOErrorKind::IOFailure, "device went away");
    match handle_fio_request(Err(failure), FileIORequest::Read(4)) {
        FileIOResponse::Failed(e) => {
            assert_eq!(e.kind(), IOErrorKind::IOFailure);
            assert_eq!(e.to_string(), "device went away");
        }
        _ => panic!("failed response is expected"),
    }
}

#[test]
fn close_is_answered_closed_whatever_was_read() {
    let failure = IOError::new(IOErrorKind::IOFailure, "device went away");
    assert!(matches!(
        handle_fio_request(Err(failure), FileIORequest::Close),
        FileIOResponse::Closed
    ));
    assert!(matches!(
        handle_fio_request(Ok(b"RIFF".to_vec()), FileIORequest::Close),
        FileIOResponse::Closed
    ));
}

#[test]
fn io_error_wraps_a_description() {
    let r: IOResult<u8> = io_error("receiving on a closed channel");
    let e = r.unwrap_err();
    assert_eq!(e.kind(), IO_ERROR);
    assert_eq!(e.kind(), IOErrorKind::Other);
    assert_eq!(e.to_string(), "receiving on a closed channel");
    assert_eq!(e.message, "receiving on a closed channel");
}

#[test]
fn errors_carry_their_category_description() {
    let all = [
        (IOErrorKind::Other, "failure"),
        (IOErrorKind::OpenFailure, "failed to open file"),
        (IOErrorKind::ChannelDisconnected, "disconnected"),
        (IOErrorKind::ProtocolViolation, "unexpected response type"),
        (IOErrorKind::AlreadyStarted, "has already started."),
        (IOErrorKind::AlreadyUsed, "worker has been already used."),
        (IOErrorKind::NotStarted, "has not started yet."),
        (IOErrorKind::AlreadyStopped, "has already stopped."),
        (IOErrorKind::Timeout, "timeout"),
        (IOErrorKind::IOFailure, "input/output failure"),
    ];
    for (kind, text) in all {
        assert_eq!(kind.description(), text);
        let e = IOError::from_kind(kind);
        assert_eq!(e.kind(), kind);
        assert_eq!(e.to_string(), text);
        let copy = e.clone();
        assert_eq!(copy.kind, kind);
        assert_eq!(copy.message, text);
    }
}

#[test]
fn new_handle_is_idle() {
    let io = Handle::new("sound.wav".to_string(), 10, 0);
    assert_eq!(io.state(), Lifecycle::Idle);
    assert_eq!(io.name(), "sound.wav");
    assert!(!io.timer().is_started());
    assert_eq!(io.timer().timeout(), 10_000_000_000);
    assert!(io.sender().is_none());
    assert!(io.receiver().is_none());
}

/// The worker's side of a session, taken one step of its loop at a time in
/// place of a thread of its own. The file is held in memory.
struct Served {
    worker: Worker<Sender<FileIOResponse>, Receiver<FileIORequest>>,
    tx: Sender<FileIOResponse>,
    rx: Receiver<FileIORequest>,
    file: Vec<u8>,
    position: usize,
    event: Option<WorkerEvent>,
    outcome: Option<IOResult<()>>,
}

impl Served {
    fn new(
        res_tx: Sender<FileIOResponse>,
        req_rx: Receiver<FileIORequest>,
        timer: Timer,
        file: Vec<u8>,
    ) -> Served {
        let mut worker = Worker::new(res_tx, req_rx, timer).unwrap();
        let (tx, rx) = worker.run().unwrap();
        Served {
            worker,
            tx,
            rx,
            file,
            position: 0,
            event: Some(WorkerEvent::Started),
            outcome: None,
        }
    }

    /// Takes one step of the loop, unless the run has ended.
    fn advance(&mut self) {
        let event = match self.event.take() {
            Some(event) => event,
            None => return,
        };
        let next = match self.worker.step(event) {
            WorkerAction::Poll => match self.rx.try_recv() {
                Ok(req) => WorkerEvent::Request(req),
                Err(TryRecvError::Empty) => WorkerEvent::Empty,
                Err(TryRecvError::Disconnected) => WorkerEvent::Disconnected,
            },
            WorkerAction::Invoke(req) => {
                let end = self.file.len().min(self.position + req.wanted());
                let input = self.file[self.position..end].to_vec();
                self.position = end;
                WorkerEvent::Response(handle_fio_request(Ok(input), req))
            }
            WorkerAction::Send(res) => match self.tx.send(res) {
                Ok(_) => WorkerEvent::Sent,
                Err(_) => WorkerEvent::SendFailed,
            },
            WorkerAction::Sleep(_) => WorkerEvent::Slept,
            WorkerAction::Finish(outcome) => {
                self.outcome = Some(outcome.map_err(IOError::from_kind));
                return;
            }
        };
        self.event = Some(next);
    }
}

#[test]
fn file_io_test() {
    let path = "sound.wav".to_string();

    let mut file_io: FileIO<(), Sender<FileIORequest>, Receiver<FileIOResponse>> =
        FileIO::new(path, 10, 0);

    let timer = file_io.start(true).unwrap();
    let (req_tx, req_rx) = channel::<FileIORequest>();
    let (res_tx, res_rx) = channel::<FileIOResponse>();
    let mut served = Served::new(res_tx, req_rx, timer, wave_file());
    file_io.attach((), req_tx, res_rx).unwrap();

    let tx = file_io.sender().unwrap();

    let rx = file_io.receiver().unwrap();

    tx.send(FileIORequest::Read(RIFF_FIELD_SIZE)).unwrap();

    let mut answered = false;

    loop {
        match rx.try_recv() {
            Ok(FileIOResponse::Read(buf)) => {
                let riff = from_utf8(buf.load()).unwrap();

                assert_eq!(RIFF, riff);
                answered = true;
                tx.send(FileIORequest::Close).unwrap();
            }

            Ok(FileIOResponse::Failed(e)) => panic!("{}", e.to_string()),

            Ok(FileIOResponse::Closed) => break,

            Ok(_) => panic!("timeout"),

            Err(TryRecvError::Empty) => served.advance(),

            _ => panic!("disconnected"),
        }
    }

    assert!(answered);
    served.advance();
    assert!(matches!(served.outcome, Some(Ok(()))));
    assert_eq!(served.worker.current(), WorkerState::Terminated(Termination::Closed));
    assert!(matches!(rx.try_recv(), Err(TryRecvError::Empty)));
}

#[test]
fn stages_of_a_session() {
    let mut file_io = Handle::new("sound.wav".to_string(), 10, 0);

    let timer = file_io.start(true).unwrap();
    assert!(timer.is_started());
    assert_eq!(timer.timeout(), 10_000_000_000);
    assert_eq!(file_io.state(), Lifecycle::Starting);
    assert!(file_io.timer().is_started());
    assert!(file_io.sender().is_none());

    file_io.attach(7, "requests", "responses").unwrap();
    assert_eq!(file_io.state(), Lifecycle::Started);
    assert_eq!(file_io.sender(), Some(&"requests"));
    assert_eq!(file_io.receiver(), Some(&"responses"));
    assert!(file_io.check_running().is_ok());

    assert_eq!(file_io.stop().unwrap(), FileIORequest::Close);
    file_io.stopped(Ok(FileIOResponse::Closed)).unwrap();
    assert_eq!(file_io.state(), Lifecycle::Stopped);
    assert_eq!(file_io.sender(), Some(&"requests"));
    assert_eq!(file_io.receiver(), Some(&"responses"));
}

#[test]
fn open_failure_is_a_start_error() {
    let mut io = Handle::new("missing.wav".to_string(), 10, 0);
    let err = io.start(false).unwrap_err();
    assert_eq!(err.kind(), IOErrorKind::OpenFailure);
    assert_eq!(err.to_string(), "failed to open file");
    assert_eq!(io.state(), Lifecycle::Idle);
    assert!(!io.timer().is_started());

    assert!(io.start(true).is_ok());
    assert_eq!(io.state(), Lifecycle::Starting);
}

#[test]
fn second_start_fails() {
    let mut io = Handle::new("sound.wav".to_string(), 10, 0);
    io.start(true).unwrap();
    assert_eq!(io.start(true).unwrap_err().kind(), IOErrorKind::AlreadyStarted);
    assert_eq!(io.start(false).unwrap_err().kind(), IOErrorKind::AlreadyStarted);
    assert_eq!(io.state(), Lifecycle::Starting);

    io.attach(7, "requests", "responses").unwrap();
    assert_eq!(io.start(true).unwrap_err().kind(), IOErrorKind::AlreadyStarted);
    assert_eq!(io.state(), Lifecycle::Started);
}

#[test]
fn attach_needs_a_begun_start() {
    let mut io = Handle::new("sound.wav".to_string(), 10, 0);
    assert_eq!(io.attach(7, "a", "b").unwrap_err().kind(), IOErrorKind::NotStarted);
    assert_eq!(io.state(), Lifecycle::Idle);

    let mut io = started();
    assert_eq!(io.attach(8, "c", "d").unwrap_err().kind(), IOErrorKind::AlreadyStarted);
    assert_eq!(io.sender(), Some(&"requests"));
    assert_eq!(io.receiver(), Some(&"responses"));
}

#[test]
fn channel_ends_need_a_started_session() {
    let mut io = Handle::new("sound.wav".to_string(), 10, 0);
    assert_eq!(io.sending_end().unwrap_err().kind(), IOErrorKind::NotStarted);
    assert_eq!(io.receiving_end().unwrap_err().kind(), IOErrorKind::NotStarted);
    assert_eq!(io.sending_end().unwrap_err().to_string(), "no sender");
    assert_eq!(io.receiving_end().unwrap_err().to_string(), "no receiver");

    io.start(true).unwrap();
    assert_eq!(io.sending_end().unwrap_err().kind(), IOErrorKind::NotStarted);
    assert_eq!(io.receiving_end().unwrap_err().kind(), IOErrorKind::NotStarted);

    io.attach(7, "requests", "responses").unwrap();
    assert_eq!(io.sending_end().unwrap(), &"requests");
    assert_eq!(io.receiving_end().unwrap(), &"responses");

    io.stopped(Ok(FileIOResponse::Closed)).unwrap();
    assert_eq!(io.sending_end().unwrap(), &"requests");
    assert_eq!(io.receiving_end().unwrap(), &"responses");
}

#[test]
fn operations_before_start_fail() {
    let mut io = Handle::new("sound.wav".to_string(), 10, 0);
    assert_eq!(io.check_running().unwrap_err().kind(), IOErrorKind::NotStarted);
    assert_eq!(io.stop().unwrap_err().kind(), IOErrorKind::NotStarted);
    assert_eq!(
        io.stopped(Ok(FileIOResponse::Closed)).unwrap_err().kind(),
        IOErrorKind::NotStarted
    );
    assert_eq!(io.join().unwrap_err().kind(), IOErrorKind::NotStarted);
    assert_eq!(io.join().unwrap_err().to_string(), "no thread handle");
    assert_eq!(io.stop().unwrap_err().to_string(), "has not started yet.");
    assert_eq!(io.state(), Lifecycle::Idle);

    io.start(true).unwrap();
    assert_eq!(io.stop().unwrap_err().kind(), IOErrorKind::NotStarted);
    assert_eq!(io.join().unwrap_err().kind(), IOErrorKind::NotStarted);
    assert_eq!(io.state(), Lifecycle::Starting);
}

#[test]
fn stop_wants_a_closed_response() {
    let mut io = started();
    let err = io.stopped(Ok(FileIOResponse::Timeout)).unwrap_err();
    assert_eq!(err.kind(), IOErrorKind::ProtocolViolation);
    assert_eq!(err.to_string(), "unexpected response type");
    assert_eq!(io.state(), Lifecycle::Started);

    let read = handle_fio_request(Ok(b"RIFF".to_vec()), FileIORequest::Read(4));
    let err = io.stopped(Ok(read)).unwrap_err();
    assert_eq!(err.kind(), IOErrorKind::ProtocolViolation);

    let failed = FileIOResponse::Failed(IOError::from_kind(IOErrorKind::IOFailure));
    let err = io.stopped(Ok(failed)).unwrap_err();
    assert_eq!(err.kind(), IOErrorKind::ProtocolViolation);
    assert_eq!(io.state(), Lifecycle::Started);

    assert_eq!(io.join().unwrap(), 7);
}

#[test]
fn stop_hands_a_channel_failure_back() {
    let mut io = started();
    let gone = IOError::new(IOErrorKind::ChannelDisconnected, "receiving on a closed channel");
    let err = io.stopped(Err(gone)).unwrap_err();
    assert_eq!(err.kind(), IOErrorKind::ChannelDisconnected);
    assert_eq!(err.to_string(), "receiving on a closed channel");
    assert_eq!(io.state(), Lifecycle::Started);
}

#[test]
fn second_stop_fails_at_once() {
    let mut io = started();
    assert_eq!(io.stop().unwrap(), FileIORequest::Close);
    io.stopped(Ok(FileIOResponse::Closed)).unwrap();

    let err = io.stop().unwrap_err();
    assert_eq!(err.kind(), IOErrorKind::AlreadyStopped);
    assert_eq!(err.to_string(), "has already stopped.");
    let err = io.stopped(Ok(FileIOResponse::Closed)).unwrap_err();
    assert_eq!(err.kind(), IOErrorKind::AlreadyStopped);
    assert_eq!(io.check_running().unwrap_err().kind(), IOErrorKind::AlreadyStopped);
    assert_eq!(io.state(), Lifecycle::Stopped);
}

#[test]
fn stop_lets_the_thread_handle_go() {
    let mut io = started();
    io.stopped(Ok(FileIOResponse::Closed)).unwrap();
    let err = io.join().unwrap_err();
    assert_eq!(err.kind(), IOErrorKind::AlreadyStopped);
    assert_eq!(err.to_string(), "no thread handle");
    assert_eq!(io.state(), Lifecycle::Stopped);
}

#[test]
fn join_hands_the_thread_handle_out_once() {
    let mut io = started();
    assert_eq!(io.join().unwrap(), 7);
    assert_eq!(io.state(), Lifecycle::Joined);
    assert_eq!(io.sender(), Some(&"requests"));
    assert_eq!(io.receiver(), Some(&"responses"));

    assert_eq!(io.join().unwrap_err().kind(), IOErrorKind::AlreadyStopped);
    assert_eq!(io.stop().unwrap_err().kind(), IOErrorKind::AlreadyStopped);
    assert_eq!(io.state(), Lifecycle::Joined);
}

#[test]
fn join_outcome_is_the_workers_outcome() {
    assert!(join_outcome(Some(Ok(()))).is_ok());

    let timeout = join_outcome(Some(Err(IOError::from_kind(IOErrorKind::Timeout))));
    assert_eq!(timeout.unwrap_err().kind(), IOErrorKind::Timeout);

    let abrupt = join_outcome(None).unwrap_err();
    assert_eq!(abrupt.kind(), IOErrorKind::Other);
    assert_eq!(abrupt.to_string(), "failure");
}
