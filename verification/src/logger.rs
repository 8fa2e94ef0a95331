//! The recorder: takes a request to log one message, hands it to a
//! [`Logger`] and reports how that went.

use crate::message::{note_of, text_of};
use crate::slack::{error_text, result_view, LogError, LogErrorView};
use vstd::prelude::*;
use vstd::string::*;

verus! {

/// Something that can record one message of a conversation.
pub trait Logger: Send + Sync + 'static {
    /// Records the message, or says why it could not.
    fn log(&self, role: &str, message: &str, context: Option<&str>) -> Result<(), LogError>;
}

/// A request to log one message.
#[derive(Debug, Clone, PartialEq, Eq)]
pub struct LogConversationRequest {
    /// The role of the message sender: 'human', 'assistant', or 'system'.
    pub role: String,
    /// The message content to log.
    pub message: String,
    /// Optional context or metadata about the message.
    pub context: Option<String>,
}

impl LogConversationRequest {
    /// The context, borrowed.
    pub fn context(&self) -> (context: Option<&str>)
        ensures
            note_of(context) == text_of(self.context),
    {
        match &self.context {
            Some(note) => Some(note.as_str()),
            None => None,
        }
    }
}

/// A failure as it is reported to whoever asked for the logging: an
/// internal error with a line of text.
#[derive(Debug, Clone, PartialEq, Eq)]
pub struct ToolError {
    /// The text of the error that stopped the logging.
    pub message: String,
}

/// The confirmation that a message was logged.
pub open spec fn confirmation() -> Seq<char> {
    "Message logged successfully to Slack"@
}

/// What the recorder reports for a logger's result: the confirmation, or
/// the error's text.
pub open spec fn report_of(outcome: Result<(), LogErrorView>) -> Result<Seq<char>, Seq<char>> {
    match outcome {
        Ok(_) => Ok(confirmation()),
        Err(error) => Err(error_text(error)),
    }
}

/// A report as mathematical values.
pub open spec fn report_view(report: Result<String, ToolError>) -> Result<Seq<char>, Seq<char>> {
    match report {
        Ok(text) => Ok(text@),
        Err(error) => Err(error.message@),
    }
}

/// Turns a logger's result into the recorder's report. Every error is
/// reported alike, with its text; which request failed is not told apart.
pub fn acknowledge(outcome: Result<(), LogError>) -> (report: Result<String, ToolError>)
    ensures
        report_view(report) == report_of(result_view(outcome)),
{
    match outcome {
        Ok(_) => Ok(String::from_str("Message logged successfully to Slack")),
        Err(error) => Err(ToolError { message: error.message() }),
    }
}

/// What a server that offers the recorder says of itself.
#[derive(Debug, Clone, PartialEq, Eq)]
pub struct ServerDescription {
    /// How the tool is meant to be used.
    pub instructions: String,
    /// Whether the server offers tools.
    pub tools: bool,
}

/// The instructions that the server gives to its clients.
pub open spec fn server_instructions() -> Seq<char> {
    "This is a Slack Conversation Logger MCP server that enables AI assistants to \
     log important conversations to Slack for review and history tracking. Use the \
     'log_conversation' tool to record:\n\
     - User requests and requirements (role='human')\n\
     - Your responses and implementations (role='assistant')\n\
     - Important decisions or milestones\n\
     - Errors or issues encountered (role='system')\n\
     \n\
     Logged messages will be formatted with role indicators, timestamps, and organized \
     in a dedicated Slack thread for easy review."@
}

/// What a server that offers the recorder says of itself: the instructions,
/// and that it offers tools.
pub fn describe_server() -> (info: ServerDescription)
    ensures
        info.instructions@ == server_instructions(),
        info.tools,
{
    ServerDescription {
        instructions: String::from_str(
            "This is a Slack Conversation Logger MCP server that enables AI assistants to \
             log important conversations to Slack for review and history tracking. Use the \
             'log_conversation' tool to record:\n\
             - User requests and requirements (role='human')\n\
             - Your responses and implementations (role='assistant')\n\
             - Important decisions or milestones\n\
             - Errors or issues encountered (role='system')\n\
             \n\
             Logged messages will be formatted with role indicators, timestamps, and organized \
             in a dedicated Slack thread for easy review.",
        ),
        tools: true,
    }
}

/// The recorder.
pub struct ConversationLogger<L> {
    logger: L,
}

impl<L> ConversationLogger<L> where L: Logger {
    /// The logger that the recorder hands its messages to.
    pub closed spec fn logger(&self) -> L {
        self.logger
    }

    /// A recorder that logs through `logger`.
    pub fn new(logger: L) -> (recorder: Self)
        ensures
            recorder.logger() == logger,
    {
        ConversationLogger { logger }
    }

    /// Logs one message: one call of the logger, and a report of its
    /// result. No field is checked here; the logger gets the request as it
    /// came.
    pub fn log_conversation(&self, request: LogConversationRequest) -> (report: Result<
        String,
        ToolError,
    >)
        ensures
            exists|outcome: Result<(), LogErrorView>|
                report_view(report) == #[trigger] report_of(outcome),
    {
        let outcome = self.logger.log(
            request.role.as_str(),
            request.message.as_str(),
            request.context(),
        );
        acknowledge(outcome)
    }

    /// What the server says of itself.
    pub fn get_info(&self) -> (info: ServerDescription)
        ensures
            info.instructions@ == server_instructions(),
            info.tools,
    {
        describe_server()
    }
}

} // verus!
