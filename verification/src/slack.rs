//! The channel writer: one thread per run, created on the first entry and
//! used for every entry after it.
//!
//! The writer never talks to the chat service itself. A call to
//! [`SlackClient::log_message`] returns the request to post; the caller
//! posts it and hands the service's answer to [`SlackClient::resume`], which
//! returns the next request or the call's result.

use crate::cell::{cell_get, cell_new, cell_set, cell_value};
use crate::clock::{epoch_label, is_utc_label, lemma_epoch_is_utc_label, now_label};
use crate::message::{
    block_views, entry_blocks, entry_of, format_entry, text_of, Block, BlockView, EntryView,
    LogEntry,
};
use once_cell::sync::OnceCell;
use vstd::prelude::*;
use vstd::string::*;

verus! {

/// Why a call did not record its entry.
#[derive(Debug, Clone, PartialEq, Eq)]
pub enum LogError {
    /// The thread was created, but another call had stored its own thread
    /// in the meantime.
    ThreadAlreadySet,
    /// The chat service refused a request or could not be reached; the text
    /// is the service's own.
    Service(String),
}

/// A `LogError` as mathematical values.
pub enum LogErrorView {
    ThreadAlreadySet,
    Service(Seq<char>),
}

impl View for LogError {
    type V = LogErrorView;

    open spec fn view(&self) -> LogErrorView {
        match self {
            LogError::ThreadAlreadySet => LogErrorView::ThreadAlreadySet,
            LogError::Service(text) => LogErrorView::Service(text@),
        }
    }
}

/// The text that a failed thread store is reported with.
pub open spec fn thread_already_set_text() -> Seq<char> {
    "Failed to set thread timestamp"@
}

/// The text of an error.
pub open spec fn error_text(error: LogErrorView) -> Seq<char> {
    match error {
        LogErrorView::ThreadAlreadySet => thread_already_set_text(),
        LogErrorView::Service(text) => text,
    }
}

impl LogError {
    /// The error as a line of text: the service's own words for a service
    /// error.
    pub fn message(&self) -> (text: String)
        ensures
            text@ == error_text(self@),
    {
        match self {
            LogError::ThreadAlreadySet => String::from_str("Failed to set thread timestamp"),
            LogError::Service(text) => text.clone(),
        }
    }
}

/// A message for the caller to post.
#[derive(Debug, Clone, PartialEq, Eq)]
pub enum PostRequest {
    /// A root message in the channel, which opens the thread.
    NewThread { channel_id: String, text: String },
    /// A reply in the thread whose root message has the given identifier.
    Reply { channel_id: String, thread_ts: String, blocks: Vec<Block> },
}

/// A `PostRequest` as mathematical values.
pub enum RequestView {
    NewThread { channel_id: Seq<char>, text: Seq<char> },
    Reply { channel_id: Seq<char>, thread_ts: Seq<char>, blocks: Seq<BlockView> },
}

impl View for PostRequest {
    type V = RequestView;

    open spec fn view(&self) -> RequestView {
        match self {
            PostRequest::NewThread { channel_id, text } => RequestView::NewThread {
                channel_id: channel_id@,
                text: text@,
            },
            PostRequest::Reply { channel_id, thread_ts, blocks } => RequestView::Reply {
                channel_id: channel_id@,
                thread_ts: thread_ts@,
                blocks: block_views(blocks@),
            },
        }
    }
}

/// A call that waits for the service's answer to its last request.
#[derive(Debug, PartialEq, Eq)]
pub enum LogCall {
    /// The thread's root message was requested; the entry is kept for the
    /// reply.
    AwaitingThread(LogEntry),
    /// The entry itself was requested.
    AwaitingReply,
}

/// A `LogCall` as mathematical values.
pub enum CallView {
    AwaitingThread(EntryView),
    AwaitingReply,
}

impl View for LogCall {
    type V = CallView;

    open spec fn view(&self) -> CallView {
        match self {
            LogCall::AwaitingThread(entry) => CallView::AwaitingThread(entry@),
            LogCall::AwaitingReply => CallView::AwaitingReply,
        }
    }
}

/// What a call asks of its caller next.
#[derive(Debug, PartialEq, Eq)]
pub enum Step {
    /// Post `request`, then hand the answer and `call` to `resume`.
    Post { request: PostRequest, call: LogCall },
    /// The call is over, with this result.
    Done(Result<(), LogError>),
}

/// A `Step` as mathematical values.
pub enum StepView {
    Post { request: RequestView, call: CallView },
    Done(Result<(), LogErrorView>),
}

/// The view of a call's result.
pub open spec fn result_view(result: Result<(), LogError>) -> Result<(), LogErrorView> {
    match result {
        Ok(_) => Ok(()),
        Err(error) => Err(error@),
    }
}

impl View for Step {
    type V = StepView;

    open spec fn view(&self) -> StepView {
        match self {
            Step::Post { request, call } => StepView::Post { request: request@, call: call@ },
            Step::Done(result) => StepView::Done(result_view(*result)),
        }
    }
}

/// The service's answer to a request: the identifier of the posted message,
/// or the service's error text.
pub open spec fn answer_view(answer: Result<String, String>) -> Result<Seq<char>, Seq<char>> {
    match answer {
        Ok(ts) => Ok(ts@),
        Err(text) => Err(text@),
    }
}

/// The writer's state as mathematical values.
pub struct ClientView {
    /// The credential for the chat service.
    pub token: Seq<char>,
    /// The channel that everything is posted to.
    pub channel_id: Seq<char>,
    /// The configured name of the thread.
    pub thread_name: Seq<char>,
    /// The label that tells this run's thread from those of other runs.
    pub label: Seq<char>,
    /// The identifier of the thread's root message, once it is known.
    pub thread_ts: Option<Seq<char>>,
}

/// The label of a run: the name of the working directory, or `unknown`
/// where there is none.
pub open spec fn context_label(workdir: Option<Seq<char>>) -> Seq<char> {
    match workdir {
        Some(name) => name,
        None => "unknown"@,
    }
}

/// The title of the thread: its configured name and the run's label.
pub open spec fn thread_title(thread_name: Seq<char>, label: Seq<char>) -> Seq<char> {
    thread_name + " - "@ + label
}

/// The text of the thread's root message.
pub open spec fn thread_banner(title: Seq<char>) -> Seq<char> {
    ":thread: *"@ + title + "*\n_Starting new conversation log_"@
}

/// The request that opens the thread.
pub open spec fn new_thread_request(client: ClientView) -> RequestView {
    RequestView::NewThread {
        channel_id: client.channel_id,
        text: thread_banner(thread_title(client.thread_name, client.label)),
    }
}

/// The request that posts an entry into a thread at a given time.
pub open spec fn reply_request(
    client: ClientView,
    thread_ts: Seq<char>,
    entry: EntryView,
    now: Seq<char>,
) -> RequestView {
    RequestView::Reply {
        channel_id: client.channel_id,
        thread_ts,
        blocks: entry_blocks(entry, now),
    }
}

/// The first step of a call that starts at time `now`: the entry goes into
/// the known thread, or the thread is opened first.
pub open spec fn start(client: ClientView, entry: EntryView, now: Seq<char>) -> StepView {
    match client.thread_ts {
        Some(thread_ts) => StepView::Post {
            request: reply_request(client, thread_ts, entry, now),
            call: CallView::AwaitingReply,
        },
        None => StepView::Post {
            request: new_thread_request(client),
            call: CallView::AwaitingThread(entry),
        },
    }
}

/// The writer's state and the call's next step after the service has
/// answered at time `now`.
///
/// A new thread is stored only where none is stored yet. Where one is, the
/// call fails, although that thread could take the entry: the new root
/// message stays in the channel without replies.
pub open spec fn next(
    client: ClientView,
    call: CallView,
    answer: Result<Seq<char>, Seq<char>>,
    now: Seq<char>,
) -> (ClientView, StepView) {
    match (call, answer) {
        (_, Err(text)) => (client, StepView::Done(Err(LogErrorView::Service(text)))),
        (CallView::AwaitingReply, Ok(_)) => (client, StepView::Done(Ok(()))),
        (CallView::AwaitingThread(entry), Ok(thread_ts)) => match client.thread_ts {
            None => (
                ClientView { thread_ts: Some(thread_ts), ..client },
                StepView::Post {
                    request: reply_request(client, thread_ts, entry, now),
                    call: CallView::AwaitingReply,
                },
            ),
            Some(_) => (client, StepView::Done(Err(LogErrorView::ThreadAlreadySet))),
        },
    }
}

/// The channel writer.
pub struct SlackClient {
    token: String,
    channel_id: String,
    thread_name: String,
    label: String,
    thread_ts: OnceCell<String>,
}

impl View for SlackClient {
    type V = ClientView;

    closed spec fn view(&self) -> ClientView {
        ClientView {
            token: self.token@,
            channel_id: self.channel_id@,
            thread_name: self.thread_name@,
            label: self.label@,
            thread_ts: cell_value(self.thread_ts),
        }
    }
}

impl SlackClient {
    /// A writer for one channel, with no thread yet. `workdir` is the name
    /// of the directory that the program runs in, if it has one.
    pub fn new(
        token: String,
        channel_id: String,
        thread_name: String,
        workdir: Option<String>,
    ) -> (client: SlackClient)
        ensures
            client@ == (ClientView {
                token: token@,
                channel_id: channel_id@,
                thread_name: thread_name@,
                label: context_label(text_of(workdir)),
                thread_ts: None,
            }),
    {
        let label = match workdir {
            Some(name) => name,
            None => String::from_str("unknown"),
        };
        SlackClient { token, channel_id, thread_name, label, thread_ts: cell_new() }
    }

    /// The credential for the chat service.
    pub fn token(&self) -> (token: &str)
        ensures
            token@ == self@.token,
    {
        self.token.as_str()
    }

    /// The channel that everything is posted to.
    pub fn channel_id(&self) -> (channel_id: &str)
        ensures
            channel_id@ == self@.channel_id,
    {
        self.channel_id.as_str()
    }

    /// The configured name of the thread.
    pub fn thread_name(&self) -> (thread_name: &str)
        ensures
            thread_name@ == self@.thread_name,
    {
        self.thread_name.as_str()
    }

    /// The label of this run.
    pub fn label(&self) -> (label: &str)
        ensures
            label@ == self@.label,
    {
        self.label.as_str()
    }

    /// The identifier of the thread's root message, once it is known.
    pub fn thread_ts(&self) -> (thread_ts: Option<&str>)
        ensures
            match thread_ts {
                Some(ts) => self@.thread_ts == Some(ts@),
                None => self@.thread_ts is None,
            },
    {
        match cell_get(&self.thread_ts) {
            Some(ts) => Some(ts.as_str()),
            None => None,
        }
    }

    /// The request that opens the thread: a root message with the thread's
    /// title and a line that says what the thread is for.
    pub fn create_thread(&self) -> (request: PostRequest)
        ensures
            request@ == new_thread_request(self@),
    {
        let mut text = String::from_str(":thread: *");
        text.append(self.thread_name.as_str());
        text.append(" - ");
        text.append(self.label.as_str());
        text.append("*\n_Starting new conversation log_");
        assert(text@ =~= thread_banner(thread_title(self@.thread_name, self@.label)));
        PostRequest::NewThread { channel_id: self.channel_id.clone(), text }
    }

    /// The request that posts `entry` into the thread `thread_ts` at time
    /// `now`.
    pub fn reply(&self, thread_ts: &str, entry: &LogEntry, now: &str) -> (request: PostRequest)
        ensures
            request@ == reply_request(self@, thread_ts@, entry@, now@),
    {
        PostRequest::Reply {
            channel_id: self.channel_id.clone(),
            thread_ts: thread_ts.to_owned(),
            blocks: format_entry(entry, now),
        }
    }

    /// Starts a call at time `now`.
    pub fn log_message_at(
        &self,
        role: &str,
        message: &str,
        context: Option<&str>,
        now: &str,
    ) -> (step: Step)
        ensures
            step@ == start(self@, entry_of(role, message, context), now@),
    {
        let entry = LogEntry {
            role: role.to_owned(),
            message: message.to_owned(),
            context: match context {
                Some(note) => Some(note.to_owned()),
                None => None,
            },
        };
        match cell_get(&self.thread_ts) {
            Some(thread_ts) => Step::Post {
                request: self.reply(thread_ts.as_str(), &entry, now),
                call: LogCall::AwaitingReply,
            },
            None => Step::Post {
                request: self.create_thread(),
                call: LogCall::AwaitingThread(entry),
            },
        }
    }

    /// Starts a call: returns the first request to post. The entry is
    /// stamped with the current time, written as `YYYY-MM-DD HH:MM:SS UTC`,
    /// where it can be posted at once.
    pub fn log_message(&self, role: &str, message: &str, context: Option<&str>) -> (step: Step)
        ensures
            step@ is Post,
            self@.thread_ts is None ==> step@ == (StepView::Post {
                request: new_thread_request(self@),
                call: CallView::AwaitingThread(entry_of(role, message, context)),
            }),
            exists|now: Seq<char>|
                is_utc_label(now) && step@ == #[trigger] start(
                    self@,
                    entry_of(role, message, context),
                    now,
                ),
    {
        match cell_get(&self.thread_ts) {
            Some(_) => {
                let now = now_label();
                self.log_message_at(role, message, context, now.as_str())
            },
            None => {
                let step = self.log_message_at(role, message, context, "");
                proof {
                    // No time is read here, and the step does not depend on
                    // one: any time stands for it.
                    lemma_epoch_is_utc_label();
                    assert(step@ == start(
                        self@,
                        entry_of(role, message, context),
                        epoch_label(),
                    ));
                }
                step
            },
        }
    }

    /// Takes the service's answer to the request that `call` waits for, at
    /// time `now`, and returns the next step.
    pub fn resume_at(&mut self, call: LogCall, answer: Result<String, String>, now: &str) -> (step:
        Step)
        ensures
            (final(self)@, step@) == next(old(self)@, call@, answer_view(answer), now@),
    {
        match answer {
            Err(text) => Step::Done(Err(LogError::Service(text))),
            Ok(ts) => match call {
                LogCall::AwaitingReply => Step::Done(Ok(())),
                LogCall::AwaitingThread(entry) => {
                    match cell_set(&mut self.thread_ts, ts.clone()) {
                        Ok(_) => Step::Post {
                            request: self.reply(ts.as_str(), &entry, now),
                            call: LogCall::AwaitingReply,
                        },
                        Err(_) => Step::Done(Err(LogError::ThreadAlreadySet)),
                    }
                },
            },
        }
    }

    /// Takes the service's answer to the request that `call` waits for and
    /// returns the next step. The entry is stamped with the current time,
    /// written as `YYYY-MM-DD HH:MM:SS UTC`, where the answer makes way for
    /// it.
    pub fn resume(&mut self, call: LogCall, answer: Result<String, String>) -> (step: Step)
        ensures
            old(self)@.thread_ts is Some ==> final(self)@ == old(self)@,
            answer matches Err(text) ==> final(self)@ == old(self)@ && step@ == StepView::Done(
                Err(LogErrorView::Service(text@)),
            ),
            answer is Ok && call@ is AwaitingReply ==> final(self)@ == old(self)@ && step@
                == StepView::Done(Ok(())),
            answer is Ok && call@ is AwaitingThread && old(self)@.thread_ts is Some ==> step@
                == StepView::Done(Err(LogErrorView::ThreadAlreadySet)),
            answer matches Ok(ts) ==> (call@ is AwaitingThread && old(self)@.thread_ts is None
                ==> final(self)@.thread_ts == Some(ts@) && step@ is Post),
            exists|now: Seq<char>|
                is_utc_label(now) && (final(self)@, step@) == #[trigger] next(
                    old(self)@,
                    call@,
                    answer_view(answer),
                    now,
                ),
    {
        let stamp = match (&call, &answer) {
            (LogCall::AwaitingThread(_), Ok(_)) => self.thread_ts().is_none(),
            _ => false,
        };
        if stamp {
            let now = now_label();
            self.resume_at(call, answer, now.as_str())
        } else {
            let ghost before = self@;
            let ghost waiting = call@;
            let ghost answered = answer_view(answer);
            let step = self.resume_at(call, answer, "");
            proof {
                // No time is read here, and the step does not depend on
                // one: any time stands for it.
                lemma_epoch_is_utc_label();
                assert((self@, step@) == next(before, waiting, answered, epoch_label()));
            }
            step
        }
    }
}

} // verus!
