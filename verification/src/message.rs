//! A conversation entry and the display blocks it is posted as.

use crate::text::{to_uppercase, uppercase_of};
use vstd::prelude::*;
use vstd::string::*;

verus! {

/// One message of a conversation, as it was handed in.
#[derive(Debug, Clone, PartialEq, Eq)]
pub struct LogEntry {
    /// Who spoke: by custom `human`, `assistant` or `system`, but any text
    /// is taken as it is.
    pub role: String,
    /// What was said.
    pub message: String,
    /// A note on the circumstances, if there is one.
    pub context: Option<String>,
}

/// A `LogEntry` as mathematical values.
pub struct EntryView {
    pub role: Seq<char>,
    pub message: Seq<char>,
    pub context: Option<Seq<char>>,
}

/// The text of an optional string.
pub open spec fn text_of(text: Option<String>) -> Option<Seq<char>> {
    match text {
        Some(t) => Some(t@),
        None => None,
    }
}

/// The text of an optional string slice.
pub open spec fn note_of(text: Option<&str>) -> Option<Seq<char>> {
    match text {
        Some(t) => Some(t@),
        None => None,
    }
}

impl View for LogEntry {
    type V = EntryView;

    open spec fn view(&self) -> EntryView {
        EntryView { role: self.role@, message: self.message@, context: text_of(self.context) }
    }
}

/// The entry made of a role, a message and an optional context.
pub open spec fn entry_of(role: &str, message: &str, context: Option<&str>) -> EntryView {
    EntryView { role: role@, message: message@, context: note_of(context) }
}

/// One unit of display content in a posted message.
#[derive(Debug, Clone, PartialEq, Eq)]
pub enum Block {
    /// A section rendered as markdown.
    Section(String),
    /// A footer line rendered as plain text.
    Context(String),
    /// A horizontal rule.
    Divider,
}

/// A `Block` as mathematical values.
pub enum BlockView {
    Section(Seq<char>),
    Context(Seq<char>),
    Divider,
}

impl View for Block {
    type V = BlockView;

    open spec fn view(&self) -> BlockView {
        match self {
            Block::Section(text) => BlockView::Section(text@),
            Block::Context(text) => BlockView::Context(text@),
            Block::Divider => BlockView::Divider,
        }
    }
}

/// The blocks of a sequence, each by its view.
pub open spec fn block_views(blocks: Seq<Block>) -> Seq<BlockView> {
    blocks.map_values(|block: Block| block@)
}

/// The header line: the role in upper case and the time, set in bold.
pub open spec fn header_text(upper_role: Seq<char>, timestamp: Seq<char>) -> Seq<char> {
    "*"@ + upper_role + " - "@ + timestamp + "*"@
}

/// The footer line for a context note.
pub open spec fn context_text(context: Seq<char>) -> Seq<char> {
    "Context: "@ + context
}

/// The blocks of an entry whose role is already in upper case: header,
/// body, the context footer if there is a context, and a closing divider.
pub open spec fn blocks_of(
    upper_role: Seq<char>,
    message: Seq<char>,
    context: Option<Seq<char>>,
    timestamp: Seq<char>,
) -> Seq<BlockView> {
    let head = seq![
        BlockView::Section(header_text(upper_role, timestamp)),
        BlockView::Section(message),
    ];
    match context {
        Some(note) => head.push(BlockView::Context(context_text(note))).push(BlockView::Divider),
        None => head.push(BlockView::Divider),
    }
}

/// The blocks that an entry is posted as at a given time.
pub open spec fn entry_blocks(entry: EntryView, timestamp: Seq<char>) -> Seq<BlockView> {
    blocks_of(uppercase_of(entry.role), entry.message, entry.context, timestamp)
}

/// Builds the header section from a role that is already in upper case.
pub fn header_block(upper_role: &str, timestamp: &str) -> (block: Block)
    ensures
        block@ == BlockView::Section(header_text(upper_role@, timestamp@)),
{
    let mut text = String::from_str("*");
    text.append(upper_role);
    text.append(" - ");
    text.append(timestamp);
    text.append("*");
    Block::Section(text)
}

/// Builds the footer block for a context note.
pub fn context_block(context: &str) -> (block: Block)
    ensures
        block@ == BlockView::Context(context_text(context@)),
{
    let mut text = String::from_str("Context: ");
    text.append(context);
    Block::Context(text)
}

/// Lays out an entry whose role is already in upper case.
pub fn layout_blocks(
    upper_role: &str,
    message: &str,
    context: Option<&str>,
    timestamp: &str,
) -> (blocks: Vec<Block>)
    ensures
        block_views(blocks@) == blocks_of(
            upper_role@,
            message@,
            note_of(context),
            timestamp@,
        ),
{
    let mut blocks: Vec<Block> = Vec::new();
    blocks.push(header_block(upper_role, timestamp));
    blocks.push(Block::Section(message.to_owned()));
    if let Some(note) = context {
        blocks.push(context_block(note));
    }
    blocks.push(Block::Divider);
    blocks
}

/// Lays out an entry for posting at the given time.
pub fn format_entry(entry: &LogEntry, timestamp: &str) -> (blocks: Vec<Block>)
    ensures
        block_views(blocks@) == entry_blocks(entry@, timestamp@),
{
    let upper = to_uppercase(entry.role.as_str());
    let context = match &entry.context {
        Some(note) => Some(note.as_str()),
        None => None,
    };
    layout_blocks(upper.as_str(), entry.message.as_str(), context, timestamp)
}

} // verus!
