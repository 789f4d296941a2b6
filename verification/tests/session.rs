use io_worker::buffer::BufferLoader;
use io_worker::error::{IOError, IOErrorKind, IOResult};
use io_worker::fio::{
    handle_fio_request, join_outcome, FileIO, FileIORequest, FileIOResponse, Lifecycle,
};
use io_worker::timer::Timer;
use io_worker::worker::{Loop, Worker, WorkerAction, WorkerEvent};
use std::sync::mpsc::{channel, Receiver, Sender, TryRecvError};
use std::time::{Duration, Instant};

/// What stands for the worker thread here: the two channel ends and the
/// timer it was given, until the loop is run.
struct Pending {
    res_tx: Sender<FileIOResponse>,
    req_rx: Receiver<FileIORequest>,
    timer: Timer,
}

type Session = FileIO<Pending, Sender<FileIORequest>, Receiver<FileIOResponse>>;

fn wave_file() -> Vec<u8> {
    let mut bytes = Vec::new();
    bytes.extend_from_slice(b"RIFF");
    bytes.extend_from_slice(&[0x24, 0x08, 0x00, 0x00]);
    bytes.extend_from_slice(b"WAVEfmt ");
    bytes
}

fn pause(millis: u64) {
    let until = Instant::now() + Duration::from_millis(millis);
    while Instant::now() < until {
        std::hint::spin_loop();
    }
}

/// The worker's side: the loop over a file held in memory.
fn serve(pending: Pending, file: &[u8]) -> IOResult<()> {
    let mut worker = Worker::new(pending.res_tx, pending.req_rx, pending.timer)?;
    let (tx, rx) = worker.run()?;
    let mut position: usize = 0;
    let mut event = WorkerEvent::Started;
    loop {
        event = match worker.step(event) {
            WorkerAction::Poll => match rx.try_recv() {
                Ok(req) => WorkerEvent::Request(req),
                Err(TryRecvError::Empty) => WorkerEvent::Empty,
                Err(TryRecvError::Disconnected) => WorkerEvent::Disconnected,
            },
            WorkerAction::Invoke(req) => {
                let end = file.len().min(position + req.wanted());
                let input = file[position..end].to_vec();
                position = end;
                WorkerEvent::Response(handle_fio_request(Ok(input), req))
            }
            WorkerAction::Send(res) => match tx.send(res) {
                Ok(_) => WorkerEvent::Sent,
                Err(_) => WorkerEvent::SendFailed,
            },
            WorkerAction::Sleep(millis) => {
                pause(millis.min(2));
                WorkerEvent::Slept
            }
            WorkerAction::Finish(outcome) => return outcome.map_err(IOError::from_kind),
        }
    }
}

fn start(secs: u64, nanos: u32) -> Session {
    let mut session = Session::new("sound.wav".to_string(), secs, nanos);
    let timer = session.start(true).unwrap();
    let (req_tx, req_rx) = channel::<FileIORequest>();
    let (res_tx, res_rx) = channel::<FileIOResponse>();
    session.attach(Pending { res_tx, req_rx, timer }, req_tx, res_rx).unwrap();
    session
}

#[test]
fn read_then_close_then_join() {
    let mut session = start(10, 0);

    session.sender().unwrap().send(FileIORequest::Read(4)).unwrap();
    session.sender().unwrap().send(FileIORequest::Close).unwrap();

    let pending = session.join().unwrap();
    let outcome = serve(pending, &wave_file());

    match session.receiver().unwrap().recv() {
        Ok(FileIOResponse::Read(buf)) => assert_eq!(buf.load(), b"RIFF"),
        _ => panic!("read response is expected"),
    }
    match session.receiver().unwrap().recv() {
        Ok(FileIOResponse::Closed) => (),
        _ => panic!("closed response is expected"),
    }

    assert!(join_outcome(Some(outcome)).is_ok());
    assert_eq!(session.state(), Lifecycle::Joined);
}

#[test]
fn worker_with_a_short_deadline_times_out() {
    let mut session = start(0, 1_000_000);

    let pending = session.join().unwrap();
    let outcome = serve(pending, &wave_file());

    assert!(matches!(session.receiver().unwrap().recv(), Ok(FileIOResponse::Timeout)));
    assert!(session.receiver().unwrap().recv().is_err());

    let err = join_outcome(Some(outcome)).unwrap_err();
    assert_eq!(err.kind(), IOErrorKind::Timeout);
}

#[test]
fn request_after_the_deadline_is_not_served() {
    let mut session = start(0, 1_000_000);
    pause(3);
    session.sender().unwrap().send(FileIORequest::Read(4)).unwrap();

    let pending = session.join().unwrap();
    let outcome = serve(pending, &wave_file());

    assert!(matches!(session.receiver().unwrap().recv(), Ok(FileIOResponse::Timeout)));
    assert_eq!(outcome.unwrap_err().kind(), IOErrorKind::Timeout);
}

#[test]
fn stop_closes_the_session_and_a_second_stop_fails() {
    let mut session = start(10, 0);

    let close = session.stop().unwrap();
    session.sender().unwrap().send(close).unwrap();
    {
        let (res_tx, res_rx) = channel::<FileIOResponse>();
        let (req_tx, req_rx) = channel::<FileIORequest>();
        req_tx.send(close).unwrap();
        let timer = session.timer();
        serve(Pending { res_tx, req_rx, timer }, &wave_file()).unwrap();
        let reply = res_rx
            .recv()
            .map_err(|e| IOError::new(IOErrorKind::ChannelDisconnected, &e.to_string()));
        session.stopped(reply).unwrap();
    }
    assert_eq!(session.state(), Lifecycle::Stopped);

    let began = Instant::now();
    let err = session.stop().unwrap_err();
    assert_eq!(err.kind(), IOErrorKind::AlreadyStopped);
    let err = session.stopped(Ok(FileIOResponse::Closed)).unwrap_err();
    assert_eq!(err.kind(), IOErrorKind::AlreadyStopped);
    assert!(began.elapsed() < Duration::from_secs(1));
}

#[test]
fn abrupt_end_of_the_worker_is_an_error_of_join() {
    let mut session = start(10, 0);
    let pending = session.join().unwrap();
    drop(pending);

    assert!(session.receiver().unwrap().recv().is_err());
    let err = join_outcome(None).unwrap_err();
    assert_eq!(err.kind(), IOErrorKind::Other);
}
