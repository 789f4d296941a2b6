//! Whole runs of the worker: what it asks of its driver over a sequence of
//! events, and what the controller gets to see of it.

use crate::error::{IOErrorKind, IOResult};
use crate::fio::{answers, lemma_read_never_answered_closed, FileIORequest, FileIOResponse};
use crate::worker::{
    next, Phase, Termination, WorkerAction, WorkerEvent, WorkerState, INTERVAL,
};
use vstd::prelude::*;

verus! {

/// The state a worker reaches from `state` over `events`, and the actions it
/// asks for on the way, one per event, while the deadline has not passed.
pub open spec fn trace(state: WorkerState, events: Seq<WorkerEvent>) -> (
    WorkerState,
    Seq<WorkerAction>,
)
    decreases events.len(),
{
    if events.len() == 0 {
        (state, Seq::empty())
    } else {
        let (reached, actions) = trace(state, events.drop_last());
        let (end, action) = next(reached, events.last(), false);
        (end, actions.push(action))
    }
}

/// The messages among `actions` that go out on the response channel, in the
/// order in which they are sent.
pub open spec fn responses_sent(actions: Seq<WorkerAction>) -> Seq<FileIOResponse>
    decreases actions.len(),
{
    if actions.len() == 0 {
        Seq::empty()
    } else {
        let before = responses_sent(actions.drop_last());
        match actions.last() {
            WorkerAction::Send(res) => before.push(res),
            _ => before,
        }
    }
}

/// The requests among `actions` that the handler is invoked with, in order.
pub open spec fn requests_invoked(actions: Seq<WorkerAction>) -> Seq<FileIORequest>
    decreases actions.len(),
{
    if actions.len() == 0 {
        Seq::empty()
    } else {
        let before = requests_invoked(actions.drop_last());
        match actions.last() {
            WorkerAction::Invoke(req) => before.push(req),
            _ => before,
        }
    }
}

/// What the driver reports while one request is served: the poll finds
/// `req`, the handler answers `res`, the send succeeds, the sleep ends.
pub open spec fn exchange(req: FileIORequest, res: FileIOResponse) -> Seq<WorkerEvent> {
    seq![
        WorkerEvent::Request(req),
        WorkerEvent::Response(res),
        WorkerEvent::Sent,
        WorkerEvent::Slept,
    ]
}

/// What the driver reports while the worker idles for `rounds` rounds: each
/// time the poll finds nothing and the sleep ends.
pub open spec fn idling(rounds: nat) -> Seq<WorkerEvent>
    decreases rounds,
{
    if rounds == 0 {
        Seq::empty()
    } else {
        idling((rounds - 1) as nat) + seq![WorkerEvent::Empty, WorkerEvent::Slept]
    }
}

/// What the driver reports while the requests `reqs` are served one after
/// the other, `ress[i]` being the handler's answer to `reqs[i]` and
/// `waits[i]` the number of rounds the worker idles before `reqs[i]` comes.
pub open spec fn exchanges(
    reqs: Seq<FileIORequest>,
    ress: Seq<FileIOResponse>,
    waits: Seq<nat>,
) -> Seq<WorkerEvent>
    recommends
        reqs.len() == ress.len(),
        reqs.len() == waits.len(),
    decreases reqs.len(),
{
    if reqs.len() == 0 || ress.len() == 0 || waits.len() == 0 {
        Seq::empty()
    } else {
        exchanges(reqs.drop_last(), ress.drop_last(), waits.drop_last()) + idling(waits.last())
            + exchange(reqs.last(), ress.last())
    }
}

/// What the driver reports while a `Close` request is served: the poll finds
/// it, the handler answers `Closed`, the final message is sent.
pub open spec fn closing() -> Seq<WorkerEvent> {
    seq![
        WorkerEvent::Request(FileIORequest::Close),
        WorkerEvent::Response(FileIOResponse::Closed),
        WorkerEvent::Sent,
    ]
}

/// One more event extends a run by one step.
pub proof fn lemma_trace_push(state: WorkerState, events: Seq<WorkerEvent>, event: WorkerEvent)
    ensures
        trace(state, events.push(event)) == ({
            let (reached, actions) = trace(state, events);
            let (end, action) = next(reached, event, false);
            (end, actions.push(action))
        }),
{
    assert(events.push(event).drop_last() =~= events);
}

/// A run over two sequences of events in a row is the run over the first
/// followed by the run over the second from where the first ended.
pub proof fn lemma_trace_append(state: WorkerState, first: Seq<WorkerEvent>, second: Seq<WorkerEvent>)
    ensures
        trace(state, first + second) == ({
            let (reached, before) = trace(state, first);
            let (end, after) = trace(reached, second);
            (end, before + after)
        }),
    decreases second.len(),
{
    let (reached, before) = trace(state, first);
    if second.len() == 0 {
        assert(first + second =~= first);
        assert(before + Seq::<WorkerAction>::empty() =~= before);
    } else {
        lemma_trace_append(state, first, second.drop_last());
        assert((first + second).drop_last() =~= first + second.drop_last());
        let (mid, after) = trace(reached, second.drop_last());
        let (end, action) = next(mid, second.last(), false);
        assert((before + after).push(action) =~= before + after.push(action));
    }
}

/// The responses sent over two runs of actions in a row are those of the
/// first followed by those of the second.
pub proof fn lemma_responses_sent_append(first: Seq<WorkerAction>, second: Seq<WorkerAction>)
    ensures
        responses_sent(first + second) == responses_sent(first) + responses_sent(second),
    decreases second.len(),
{
    if second.len() == 0 {
        assert(first + second =~= first);
        assert(responses_sent(first) + Seq::<FileIOResponse>::empty() =~= responses_sent(first));
    } else {
        lemma_responses_sent_append(first, second.drop_last());
        assert((first + second).drop_last() =~= first + second.drop_last());
        let before = responses_sent(first) + responses_sent(second.drop_last());
        match second.last() {
            WorkerAction::Send(res) => {
                assert(before.push(res) =~= responses_sent(first) + responses_sent(
                    second.drop_last(),
                ).push(res));
            },
            _ => {},
        }
    }
}

/// The requests invoked over two runs of actions in a row are those of the
/// first followed by those of the second.
pub proof fn lemma_requests_invoked_append(first: Seq<WorkerAction>, second: Seq<WorkerAction>)
    ensures
        requests_invoked(first + second) == requests_invoked(first) + requests_invoked(second),
    decreases second.len(),
{
    if second.len() == 0 {
        assert(first + second =~= first);
        assert(requests_invoked(first) + Seq::<FileIORequest>::empty() =~= requests_invoked(
            first,
        ));
    } else {
        lemma_requests_invoked_append(first, second.drop_last());
        assert((first + second).drop_last() =~= first + second.drop_last());
        let before = requests_invoked(first) + requests_invoked(second.drop_last());
        match second.last() {
            WorkerAction::Invoke(req) => {
                assert(before.push(req) =~= requests_invoked(first) + requests_invoked(
                    second.drop_last(),
                ).push(req));
            },
            _ => {},
        }
    }
}

/// Serving one request whose answer is not `Closed` takes a polling worker
/// back to polling: it invokes the handler with the request, sends the
/// answer, and sleeps one interval.
pub proof fn lemma_exchange(req: FileIORequest, res: FileIOResponse)
    requires
        !(res is Closed),
    ensures
        trace(WorkerState::Running(Phase::Polling), exchange(req, res)) == (
            WorkerState::Running(Phase::Polling),
            seq![
                WorkerAction::Invoke(req),
                WorkerAction::Send(res),
                WorkerAction::Sleep(INTERVAL),
                WorkerAction::Poll,
            ],
        ),
{
    let polling = WorkerState::Running(Phase::Polling);
    let e0 = Seq::<WorkerEvent>::empty();
    let e1 = e0.push(WorkerEvent::Request(req));
    let e2 = e1.push(WorkerEvent::Response(res));
    let e3 = e2.push(WorkerEvent::Sent);
    lemma_trace_push(polling, e0, WorkerEvent::Request(req));
    lemma_trace_push(polling, e1, WorkerEvent::Response(res));
    lemma_trace_push(polling, e2, WorkerEvent::Sent);
    lemma_trace_push(polling, e3, WorkerEvent::Slept);
    assert(exchange(req, res) =~= e3.push(WorkerEvent::Slept));
}

/// Serving a `Close` request ends a polling worker in `Closed`: it invokes
/// the handler, sends `Closed`, and finishes with success.
pub proof fn lemma_closing()
    ensures
        trace(WorkerState::Running(Phase::Polling), closing()) == (
            WorkerState::Terminated(Termination::Closed),
            seq![
                WorkerAction::Invoke(FileIORequest::Close),
                WorkerAction::Send(FileIOResponse::Closed),
                WorkerAction::Finish(Ok(())),
            ],
        ),
{
    let polling = WorkerState::Running(Phase::Polling);
    let e0 = Seq::<WorkerEvent>::empty();
    let e1 = e0.push(WorkerEvent::Request(FileIORequest::Close));
    let e2 = e1.push(WorkerEvent::Response(FileIOResponse::Closed));
    lemma_trace_push(polling, e0, WorkerEvent::Request(FileIORequest::Close));
    lemma_trace_push(polling, e1, WorkerEvent::Response(FileIOResponse::Closed));
    lemma_trace_push(polling, e2, WorkerEvent::Sent);
    assert(closing() =~= e2.push(WorkerEvent::Sent));
}

/// Idling keeps a polling worker polling: it sleeps one interval per round,
/// invokes no handler and sends nothing.
pub proof fn lemma_idling(rounds: nat)
    ensures
        trace(WorkerState::Running(Phase::Polling), idling(rounds)).0 == WorkerState::Running(
            Phase::Polling,
        ),
        responses_sent(trace(WorkerState::Running(Phase::Polling), idling(rounds)).1)
            == Seq::<FileIOResponse>::empty(),
        requests_invoked(trace(WorkerState::Running(Phase::Polling), idling(rounds)).1)
            == Seq::<FileIORequest>::empty(),
    decreases rounds,
{
    let polling = WorkerState::Running(Phase::Polling);
    if rounds == 0 {
        assert(responses_sent(Seq::<WorkerAction>::empty()) =~= Seq::empty());
        assert(requests_invoked(Seq::<WorkerAction>::empty()) =~= Seq::empty());
    } else {
        let idled = idling((rounds - 1) as nat);
        let round = seq![WorkerEvent::Empty, WorkerEvent::Slept];
        lemma_idling((rounds - 1) as nat);
        let e0 = Seq::<WorkerEvent>::empty();
        let e1 = e0.push(WorkerEvent::Empty);
        lemma_trace_push(polling, e0, WorkerEvent::Empty);
        lemma_trace_push(polling, e1, WorkerEvent::Slept);
        assert(round =~= e1.push(WorkerEvent::Slept));
        let a0 = Seq::<WorkerAction>::empty();
        let a1 = a0.push(WorkerAction::Sleep(INTERVAL));
        let a2 = a1.push(WorkerAction::Poll);
        assert(trace(polling, round) == (polling, a2));
        lemma_trace_append(polling, idled, round);
        let before = trace(polling, idled).1;
        lemma_responses_sent_append(before, a2);
        lemma_requests_invoked_append(before, a2);
        assert(a1.drop_last() =~= a0);
        assert(a2.drop_last() =~= a1);
        assert(responses_sent(a0) =~= Seq::empty());
        assert(requests_invoked(a0) =~= Seq::empty());
        assert(responses_sent(a1) =~= Seq::empty());
        assert(requests_invoked(a1) =~= Seq::empty());
        assert(responses_sent(a2) =~= Seq::empty());
        assert(requests_invoked(a2) =~= Seq::empty());
        assert(Seq::<FileIOResponse>::empty() + Seq::<FileIOResponse>::empty() =~= Seq::empty());
        assert(Seq::<FileIORequest>::empty() + Seq::<FileIORequest>::empty() =~= Seq::empty());
    }
}

/// Serving requests one after the other, none answered by `Closed`, keeps a
/// polling worker polling, however long it idles before each; the handler
/// sees the requests in the order given and the answers go out in that same
/// order.
pub proof fn lemma_exchanges(
    reqs: Seq<FileIORequest>,
    ress: Seq<FileIOResponse>,
    waits: Seq<nat>,
)
    requires
        reqs.len() == ress.len(),
        reqs.len() == waits.len(),
        forall|i: int| 0 <= i < ress.len() ==> !(#[trigger] ress[i] is Closed),
    ensures
        trace(WorkerState::Running(Phase::Polling), exchanges(reqs, ress, waits)).0
            == WorkerState::Running(Phase::Polling),
        responses_sent(
            trace(WorkerState::Running(Phase::Polling), exchanges(reqs, ress, waits)).1,
        ) == ress,
        requests_invoked(
            trace(WorkerState::Running(Phase::Polling), exchanges(reqs, ress, waits)).1,
        ) == reqs,
    decreases reqs.len(),
{
    let polling = WorkerState::Running(Phase::Polling);
    if reqs.len() == 0 {
        assert(ress =~= Seq::<FileIOResponse>::empty());
        assert(reqs =~= Seq::<FileIORequest>::empty());
    } else {
        let req = reqs.last();
        let res = ress.last();
        let served = exchanges(reqs.drop_last(), ress.drop_last(), waits.drop_last());
        let idle = idling(waits.last());
        lemma_exchanges(reqs.drop_last(), ress.drop_last(), waits.drop_last());
        lemma_idling(waits.last());
        lemma_exchange(req, res);
        lemma_trace_append(polling, served, idle);
        lemma_trace_append(polling, served + idle, exchange(req, res));
        let before = trace(polling, served).1;
        let between = trace(polling, idle).1;
        let step = seq![
            WorkerAction::Invoke(req),
            WorkerAction::Send(res),
            WorkerAction::Sleep(INTERVAL),
            WorkerAction::Poll,
        ];
        assert(trace(polling, exchanges(reqs, ress, waits)).1 == before + between + step);
        lemma_responses_sent_append(before + between, step);
        lemma_responses_sent_append(before, between);
        lemma_requests_invoked_append(before + between, step);
        lemma_requests_invoked_append(before, between);
        lemma_actions_of_exchange(req, res);
        assert(ress.drop_last() + Seq::<FileIOResponse>::empty() + seq![res] =~= ress);
        assert(reqs.drop_last() + Seq::<FileIORequest>::empty() + seq![req] =~= reqs);
    }
}

/// Of the four actions of one exchange, one sends and one invokes.
proof fn lemma_actions_of_exchange(req: FileIORequest, res: FileIOResponse)
    ensures
        responses_sent(
            seq![
                WorkerAction::Invoke(req),
                WorkerAction::Send(res),
                WorkerAction::Sleep(INTERVAL),
                WorkerAction::Poll,
            ],
        ) == seq![res],
        requests_invoked(
            seq![
                WorkerAction::Invoke(req),
                WorkerAction::Send(res),
                WorkerAction::Sleep(INTERVAL),
                WorkerAction::Poll,
            ],
        ) == seq![req],
{
    let a0 = Seq::<WorkerAction>::empty();
    let a1 = a0.push(WorkerAction::Invoke(req));
    let a2 = a1.push(WorkerAction::Send(res));
    let a3 = a2.push(WorkerAction::Sleep(INTERVAL));
    let a4 = a3.push(WorkerAction::Poll);
    assert(a1.drop_last() =~= a0);
    assert(a2.drop_last() =~= a1);
    assert(a3.drop_last() =~= a2);
    assert(a4.drop_last() =~= a3);
    assert(responses_sent(a0) =~= Seq::empty());
    assert(requests_invoked(a0) =~= Seq::empty());
    assert(responses_sent(a1) =~= Seq::empty());
    assert(responses_sent(a2) =~= seq![res]);
    assert(responses_sent(a3) =~= seq![res]);
    assert(responses_sent(a4) =~= seq![res]);
    assert(requests_invoked(a1) =~= seq![req]);
    assert(requests_invoked(a2) =~= seq![req]);
    assert(requests_invoked(a3) =~= seq![req]);
    assert(requests_invoked(a4) =~= seq![req]);
    assert(seq![
        WorkerAction::Invoke(req),
        WorkerAction::Send(res),
        WorkerAction::Sleep(INTERVAL),
        WorkerAction::Poll,
    ] =~= a4);
}

/// What the driver reports over a whole session in which the requests
/// `reqs` are served and then a `Close` request ends it, the worker idling
/// `waits[i]` rounds before `reqs[i]` and `last_wait` rounds before the
/// `Close`.
pub open spec fn session(
    reqs: Seq<FileIORequest>,
    ress: Seq<FileIOResponse>,
    waits: Seq<nat>,
    last_wait: nat,
) -> Seq<WorkerEvent> {
    seq![WorkerEvent::Started] + exchanges(reqs, ress, waits) + idling(last_wait) + closing()
}

/// Responses arrive in the order of the requests.
///
/// Take any sequence of `Read` requests followed by a `Close`, any outcome of
/// each read, the handler's answer to each, and any number of idle rounds
/// before each request. A worker that is run on them before its deadline
/// invokes the handler with the requests in the order sent, sends the
/// answers in that same order, then sends `Closed`, and its run ends with
/// success.
pub proof fn lemma_responses_arrive_in_request_order(
    reqs: Seq<FileIORequest>,
    inputs: Seq<IOResult<Seq<u8>>>,
    ress: Seq<FileIOResponse>,
    waits: Seq<nat>,
    last_wait: nat,
)
    requires
        reqs.len() == inputs.len(),
        reqs.len() == ress.len(),
        reqs.len() == waits.len(),
        forall|i: int|
            0 <= i < reqs.len() ==> reqs[i] is Read && #[trigger] answers(
                inputs[i],
                reqs[i],
                ress[i],
            ),
    ensures
        ({
            let (end, actions) = trace(
                WorkerState::Running(Phase::Entering),
                session(reqs, ress, waits, last_wait),
            );
            &&& end == WorkerState::Terminated(Termination::Closed)
            &&& requests_invoked(actions) == reqs.push(FileIORequest::Close)
            &&& responses_sent(actions) == ress.push(FileIOResponse::Closed)
            &&& actions.last() == WorkerAction::Finish(Ok(()))
        }),
{
    let entering = WorkerState::Running(Phase::Entering);
    let polling = WorkerState::Running(Phase::Polling);
    assert forall|i: int| 0 <= i < ress.len() implies !(#[trigger] ress[i] is Closed) by {
        assert(answers(inputs[i], reqs[i], ress[i]));
        lemma_read_never_answered_closed(inputs[i], reqs[i]->Read_0, ress[i]);
    }
    let opening = seq![WorkerEvent::Started];
    let served = exchanges(reqs, ress, waits);
    let idle = idling(last_wait);
    // The loop is entered and reaches its first poll.
    lemma_trace_push(entering, Seq::empty(), WorkerEvent::Started);
    assert(opening =~= Seq::<WorkerEvent>::empty().push(WorkerEvent::Started));
    let first = seq![WorkerAction::Poll];
    assert(trace(entering, opening) == (polling, first));
    // The requests are served in order.
    lemma_exchanges(reqs, ress, waits);
    lemma_trace_append(entering, opening, served);
    let middle = trace(polling, served).1;
    // The worker idles until the last request comes.
    lemma_idling(last_wait);
    lemma_trace_append(entering, opening + served, idle);
    let pause = trace(polling, idle).1;
    // The session is closed.
    lemma_closing();
    lemma_trace_append(entering, opening + served + idle, closing());
    let last = seq![
        WorkerAction::Invoke(FileIORequest::Close),
        WorkerAction::Send(FileIOResponse::Closed),
        WorkerAction::Finish(Ok(())),
    ];
    let actions = first + middle + pause + last;
    assert(trace(entering, session(reqs, ress, waits, last_wait)) == (
        WorkerState::Terminated(Termination::Closed),
        actions,
    ));
    lemma_responses_sent_append(first + middle + pause, last);
    lemma_responses_sent_append(first + middle, pause);
    lemma_responses_sent_append(first, middle);
    lemma_requests_invoked_append(first + middle + pause, last);
    lemma_requests_invoked_append(first + middle, pause);
    lemma_requests_invoked_append(first, middle);
    lemma_actions_of_opening_and_closing();
    assert(Seq::<FileIOResponse>::empty() + ress + Seq::<FileIOResponse>::empty()
        + seq![FileIOResponse::Closed] =~= ress.push(FileIOResponse::Closed));
    assert(Seq::<FileIORequest>::empty() + reqs + Seq::<FileIORequest>::empty()
        + seq![FileIORequest::Close] =~= reqs.push(FileIORequest::Close));
}

/// The first poll neither sends nor invokes; the three actions that close a
/// session invoke the handler with `Close` and send `Closed`.
proof fn lemma_actions_of_opening_and_closing()
    ensures
        responses_sent(seq![WorkerAction::Poll]) == Seq::<FileIOResponse>::empty(),
        requests_invoked(seq![WorkerAction::Poll]) == Seq::<FileIORequest>::empty(),
        responses_sent(
            seq![
                WorkerAction::Invoke(FileIORequest::Close),
                WorkerAction::Send(FileIOResponse::Closed),
                WorkerAction::Finish(Ok(())),
            ],
        ) == seq![FileIOResponse::Closed],
        requests_invoked(
            seq![
                WorkerAction::Invoke(FileIORequest::Close),
                WorkerAction::Send(FileIOResponse::Closed),
                WorkerAction::Finish(Ok(())),
            ],
        ) == seq![FileIORequest::Close],
{
    let a0 = Seq::<WorkerAction>::empty();
    let polled = a0.push(WorkerAction::Poll);
    let a1 = a0.push(WorkerAction::Invoke(FileIORequest::Close));
    let a2 = a1.push(WorkerAction::Send(FileIOResponse::Closed));
    let a3 = a2.push(WorkerAction::Finish(Ok(())));
    assert(polled.drop_last() =~= a0);
    assert(a1.drop_last() =~= a0);
    assert(a2.drop_last() =~= a1);
    assert(a3.drop_last() =~= a2);
    assert(responses_sent(a0) =~= Seq::empty());
    assert(requests_invoked(a0) =~= Seq::empty());
    assert(responses_sent(polled) =~= Seq::empty());
    assert(requests_invoked(polled) =~= Seq::empty());
    assert(responses_sent(a1) =~= Seq::empty());
    assert(responses_sent(a2) =~= seq![FileIOResponse::Closed]);
    assert(responses_sent(a3) =~= seq![FileIOResponse::Closed]);
    assert(requests_invoked(a1) =~= seq![FileIORequest::Close]);
    assert(requests_invoked(a2) =~= seq![FileIORequest::Close]);
    assert(requests_invoked(a3) =~= seq![FileIORequest::Close]);
    assert(seq![WorkerAction::Poll] =~= polled);
    assert(seq![
        WorkerAction::Invoke(FileIORequest::Close),
        WorkerAction::Send(FileIOResponse::Closed),
        WorkerAction::Finish(Ok(())),
    ] =~= a3);
}

/// A worker that finds its deadline passed at the head of its loop, whether
/// it has just been entered or has just slept, asks for a `Timeout` message
/// to be sent, and once that is sent its run ends with the timeout error
/// and not with success.
pub proof fn lemma_expired_worker_reports_timeout(timed_out: bool)
    ensures
        next(WorkerState::Running(Phase::Entering), WorkerEvent::Started, true) == (
            WorkerState::Running(Phase::Expiring),
            WorkerAction::Send(FileIOResponse::Timeout),
        ),
        next(WorkerState::Running(Phase::Sleeping), WorkerEvent::Slept, true) == (
            WorkerState::Running(Phase::Expiring),
            WorkerAction::Send(FileIOResponse::Timeout),
        ),
        next(WorkerState::Running(Phase::Expiring), WorkerEvent::Sent, timed_out) == (
            WorkerState::Terminated(Termination::TimedOut),
            WorkerAction::Finish(Err(IOErrorKind::Timeout)),
        ),
{
}

/// A worker that has terminated stays where it is: every further event is
/// answered with `AlreadyUsed`.
pub proof fn lemma_terminated_worker_stays(how: Termination, event: WorkerEvent, timed_out: bool)
    ensures
        next(WorkerState::Terminated(how), event, timed_out) == (
            WorkerState::Terminated(how),
            WorkerAction::Finish(Err(IOErrorKind::AlreadyUsed)),
        ),
{
}

} // verus!
