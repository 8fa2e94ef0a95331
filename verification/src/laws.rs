//! Laws of the writer and of the message layout, proved from the
//! definitions that the functions' contracts are stated with.

use crate::logger::{confirmation, report_of};
use crate::message::{context_text, entry_blocks, header_text, BlockView, EntryView};
use crate::text::uppercase_of;
use crate::slack::{
    error_text, new_thread_request, next, reply_request, start, CallView, ClientView,
    LogErrorView, RequestView, StepView,
};
use vstd::prelude::*;

verus! {

/// The layout of an entry is a function of the entry and the time alone. It
/// has a header, a body and a closing divider, and between body and divider
/// a context footer if and only if the entry has a context. The divider
/// closes the message and stands nowhere else.
pub proof fn lemma_layout_shape(entry: EntryView, timestamp: Seq<char>)
    ensures
        ({
            let blocks = entry_blocks(entry, timestamp);
            &&& blocks.len() == if entry.context is Some { 4nat } else { 3nat }
            &&& blocks[0] == BlockView::Section(header_text(uppercase_of(entry.role), timestamp))
            &&& blocks[1] == BlockView::Section(entry.message)
            &&& blocks.last() == BlockView::Divider
            &&& forall|i: int| 0 <= i < blocks.len() - 1 ==> !(#[trigger] blocks[i] is Divider)
            &&& (exists|i: int| 0 <= i < blocks.len() && #[trigger] blocks[i] is Context)
                <==> entry.context is Some
            &&& entry.context matches Some(note) ==> blocks[2] == BlockView::Context(
                context_text(note),
            )
        }),
{
}

/// A later answer never replaces a stored thread, and no answer touches
/// anything but the thread.
pub proof fn lemma_thread_is_kept(
    client: ClientView,
    call: CallView,
    answer: Result<Seq<char>, Seq<char>>,
    now: Seq<char>,
)
    ensures
        next(client, call, answer, now).0 == (ClientView {
            thread_ts: next(client, call, answer, now).0.thread_ts,
            ..client
        }),
        client.thread_ts is Some ==> next(client, call, answer, now).0 == client,
{
}

/// Where the service fails a request, the call fails with the service's
/// text and the writer is as it was: a stored thread stays, and where none
/// is stored the next call opens one again. The recorder reports the
/// failure with the same text.
pub proof fn lemma_failure_is_passed_on(
    client: ClientView,
    call: CallView,
    text: Seq<char>,
    now: Seq<char>,
)
    ensures
        next(client, call, Err(text), now) == (
            client,
            StepView::Done(Err(LogErrorView::Service(text))),
        ),
        report_of(Err(LogErrorView::Service(text))) == Err::<Seq<char>, Seq<char>>(text),
{
}

/// The recorder confirms a call that succeeded and reports a failure for
/// every call that did not, with the error's text.
pub proof fn lemma_report_follows_result(outcome: Result<(), LogErrorView>)
    ensures
        report_of(outcome) is Ok <==> outcome is Ok,
        outcome is Ok ==> report_of(outcome) == Ok::<Seq<char>, Seq<char>>(confirmation()),
        outcome matches Err(error) ==> report_of(outcome) == Err::<Seq<char>, Seq<char>>(
            error_text(error),
        ),
{
}

/// Two calls that both start before a thread is stored both ask for a new
/// thread. The first answer to arrive is stored and its call goes on to
/// post its entry there; the other call fails, and the stored thread is
/// still the first.
pub proof fn lemma_second_thread_is_refused(
    client: ClientView,
    first: EntryView,
    second: EntryView,
    first_ts: Seq<char>,
    second_ts: Seq<char>,
    now: Seq<char>,
)
    requires
        client.thread_ts is None,
    ensures
        start(client, first, now) == (StepView::Post {
            request: new_thread_request(client),
            call: CallView::AwaitingThread(first),
        }),
        start(client, second, now) == (StepView::Post {
            request: new_thread_request(client),
            call: CallView::AwaitingThread(second),
        }),
        ({
            let (stored, step) = next(client, CallView::AwaitingThread(first), Ok(first_ts), now);
            let (kept, refused) = next(
                stored,
                CallView::AwaitingThread(second),
                Ok(second_ts),
                now,
            );
            &&& stored == ClientView { thread_ts: Some(first_ts), ..client }
            &&& step == StepView::Post {
                request: reply_request(client, first_ts, first, now),
                call: CallView::AwaitingReply,
            }
            &&& kept == stored
            &&& refused == StepView::Done(Err(LogErrorView::ThreadAlreadySet))
        }),
{
}

/// What the service answers during one call, and the time at which the
/// entry is stamped.
pub struct Answers {
    /// The answer to a request for a new thread.
    pub created: Result<Seq<char>, Seq<char>>,
    /// The answer to a reply.
    pub posted: Result<Seq<char>, Seq<char>>,
    /// The time on the clock.
    pub now: Seq<char>,
}

/// The answer that a request gets.
pub open spec fn answer_to(request: RequestView, answers: Answers) -> Result<Seq<char>, Seq<char>> {
    match request {
        RequestView::NewThread { .. } => answers.created,
        RequestView::Reply { .. } => answers.posted,
    }
}

/// One call run to its end with no other call in between.
pub struct CallRun {
    /// The writer after the call.
    pub client: ClientView,
    /// The requests that were posted, in order.
    pub sent: Seq<RequestView>,
    /// The call's result.
    pub result: Result<(), LogErrorView>,
}

/// Runs one call alone: every request is posted and answered before the
/// next step is taken.
pub open spec fn run_call(client: ClientView, entry: EntryView, answers: Answers) -> CallRun {
    match start(client, entry, answers.now) {
        StepView::Done(result) => CallRun { client, sent: Seq::empty(), result },
        StepView::Post { request, call } => {
            let (client1, step1) = next(client, call, answer_to(request, answers), answers.now);
            match step1 {
                StepView::Done(result) => CallRun { client: client1, sent: seq![request], result },
                StepView::Post { request: request1, call: call1 } => {
                    let (client2, step2) = next(
                        client1,
                        call1,
                        answer_to(request1, answers),
                        answers.now,
                    );
                    CallRun {
                        client: client2,
                        sent: seq![request, request1],
                        result: match step2 {
                            StepView::Done(result) => result,
                            StepView::Post { .. } => arbitrary(),
                        },
                    }
                },
            }
        },
    }
}

/// The result of a call whose entry reached the service.
pub open spec fn posted_result(posted: Result<Seq<char>, Seq<char>>) -> Result<(), LogErrorView> {
    match posted {
        Ok(_) => Ok(()),
        Err(text) => Err(LogErrorView::Service(text)),
    }
}

/// A call run alone ends after two requests at most. With a thread stored
/// it posts its entry there and nothing else. With none stored it asks for
/// a thread; if that is refused the call fails and still none is stored,
/// else the thread is stored and takes the entry.
pub proof fn lemma_call_alone(client: ClientView, entry: EntryView, answers: Answers)
    ensures
        ({
            let run = run_call(client, entry, answers);
            match client.thread_ts {
                Some(thread_ts) => {
                    &&& run.client == client
                    &&& run.sent == seq![reply_request(client, thread_ts, entry, answers.now)]
                    &&& run.result == posted_result(answers.posted)
                },
                None => match answers.created {
                    Err(text) => {
                        &&& run.client == client
                        &&& run.sent == seq![new_thread_request(client)]
                        &&& run.result == Err::<(), LogErrorView>(LogErrorView::Service(text))
                    },
                    Ok(thread_ts) => {
                        &&& run.client == ClientView { thread_ts: Some(thread_ts), ..client }
                        &&& run.sent == seq![
                            new_thread_request(client),
                            reply_request(client, thread_ts, entry, answers.now),
                        ]
                        &&& run.result == posted_result(answers.posted)
                    },
                },
            }
        }),
{
}

/// One call of a run: the entry and what happens around it.
pub struct Call {
    pub entry: EntryView,
    pub answers: Answers,
}

/// Calls run one after the other.
pub struct Run {
    /// The writer after the last call.
    pub client: ClientView,
    /// All requests that were posted, in order.
    pub sent: Seq<RequestView>,
    /// The result of each call.
    pub results: Seq<Result<(), LogErrorView>>,
}

/// Runs the calls one after the other, each to its end before the next
/// starts.
pub open spec fn run_calls(client: ClientView, calls: Seq<Call>) -> Run
    decreases calls.len(),
{
    if calls.len() == 0 {
        Run { client, sent: Seq::empty(), results: Seq::empty() }
    } else {
        let before = run_calls(client, calls.drop_last());
        let last = run_call(before.client, calls.last().entry, calls.last().answers);
        Run {
            client: last.client,
            sent: before.sent + last.sent,
            results: before.results.push(last.result),
        }
    }
}

/// How many of the requests ask for a new thread.
pub open spec fn thread_requests(sent: Seq<RequestView>) -> nat
    decreases sent.len(),
{
    if sent.len() == 0 {
        0
    } else {
        thread_requests(sent.drop_last()) + if sent.last() is NewThread {
            1nat
        } else {
            0nat
        }
    }
}

/// In a run of one or more calls, one after the other, that starts with no
/// thread stored and whose first request for a thread is granted, exactly
/// one thread is asked for: the first request of the run. Every call then
/// posts its entry as a reply in that one thread, in the order of the
/// calls, and each call's result is that of its reply.
pub proof fn lemma_one_thread_per_run(client: ClientView, calls: Seq<Call>)
    requires
        client.thread_ts is None,
        calls.len() >= 1,
        calls[0].answers.created is Ok,
    ensures
        ({
            let run = run_calls(client, calls);
            let thread_ts = calls[0].answers.created->Ok_0;
            &&& run.client == ClientView { thread_ts: Some(thread_ts), ..client }
            &&& run.sent.len() == calls.len() + 1
            &&& run.sent[0] == new_thread_request(client)
            &&& thread_requests(run.sent) == 1
            &&& forall|i: int|
                1 <= i <= calls.len() ==> #[trigger] run.sent[i] == reply_request(
                    client,
                    thread_ts,
                    calls[i - 1].entry,
                    calls[i - 1].answers.now,
                )
            &&& run.results.len() == calls.len()
            &&& forall|i: int|
                0 <= i < calls.len() ==> #[trigger] run.results[i] == posted_result(
                    calls[i].answers.posted,
                )
        }),
    decreases calls.len(),
{
    let run = run_calls(client, calls);
    let thread_ts = calls[0].answers.created->Ok_0;
    let last = calls.last();
    if calls.len() == 1 {
        // The run is the first call alone: the thread is asked for, then
        // the entry is posted into it.
        lemma_call_alone(client, last.entry, last.answers);
        assert(thread_requests(run.sent.drop_last().drop_last()) == 0);
        assert(thread_requests(run.sent.drop_last()) == 1);
    } else {
        // The earlier calls have left the thread stored, so the last call
        // posts its entry there and asks for nothing else.
        let earlier = calls.drop_last();
        lemma_one_thread_per_run(client, earlier);
        let stored = ClientView { thread_ts: Some(thread_ts), ..client };
        lemma_call_alone(stored, last.entry, last.answers);
        assert(run.sent.drop_last() =~= run_calls(client, earlier).sent);
    }
}

} // verus!
