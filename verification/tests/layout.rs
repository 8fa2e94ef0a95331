use slack_conversation_logger::clock::now_label;
use slack_conversation_logger::message::{
    context_block, format_entry, header_block, layout_blocks, Block, LogEntry,
};

const TIME: &str = "2024-01-15 10:30:00 UTC";

fn entry(role: &str, message: &str, context: Option<&str>) -> LogEntry {
    LogEntry {
        role: role.to_string(),
        message: message.to_string(),
        context: context.map(|note| note.to_string()),
    }
}

#[test]
fn human_entry_without_context_has_three_blocks() {
    let blocks = format_entry(&entry("human", "Please add feature X", None), TIME);
    assert_eq!(
        blocks,
        vec![
            Block::Section("*HUMAN - 2024-01-15 10:30:00 UTC*".to_string()),
            Block::Section("Please add feature X".to_string()),
            Block::Divider,
        ]
    );
    assert!(!blocks.iter().any(|block| matches!(block, Block::Context(_))));
}

#[test]
fn assistant_entry_with_context_has_four_blocks() {
    let blocks = format_entry(
        &entry("assistant", "Implemented feature X", Some("commit abc123")),
        TIME,
    );
    assert_eq!(
        blocks,
        vec![
            Block::Section("*ASSISTANT - 2024-01-15 10:30:00 UTC*".to_string()),
            Block::Section("Implemented feature X".to_string()),
            Block::Context("Context: commit abc123".to_string()),
            Block::Divider,
        ]
    );
}

#[test]
fn same_entry_and_time_give_same_blocks() {
    let first = format_entry(&entry("system", "disk full", Some("host a")), TIME);
    let second = format_entry(&entry("system", "disk full", Some("host a")), TIME);
    assert_eq!(first, second);
    let later = format_entry(&entry("system", "disk full", Some("host a")), "2024-01-15 10:30:01 UTC");
    assert_ne!(first, later);
    assert_eq!(first[1..], later[1..]);
}

#[test]
fn every_layout_ends_with_the_only_divider() {
    for context in [None, Some(""), Some("note")] {
        for role in ["human", "assistant", "system", "", "Narrator #2"] {
            let blocks = format_entry(&entry(role, "text", context), TIME);
            assert_eq!(blocks.len(), if context.is_some() { 4 } else { 3 });
            assert_eq!(blocks.last(), Some(&Block::Divider));
            let dividers = blocks.iter().filter(|block| **block == Block::Divider).count();
            assert_eq!(dividers, 1);
            let footers = blocks.iter().filter(|block| matches!(block, Block::Context(_))).count();
            assert_eq!(footers, if context.is_some() { 1 } else { 0 });
        }
    }
}

#[test]
fn empty_context_still_gets_a_footer() {
    let blocks = format_entry(&entry("human", "hello", Some("")), TIME);
    assert_eq!(blocks[2], Block::Context("Context: ".to_string()));
}

#[test]
fn role_is_upper_cased_and_message_is_not() {
    let blocks = format_entry(&entry("Human", "keep My Case", None), TIME);
    assert_eq!(blocks[0], Block::Section("*HUMAN - 2024-01-15 10:30:00 UTC*".to_string()));
    assert_eq!(blocks[1], Block::Section("keep My Case".to_string()));
}

#[test]
fn role_outside_the_usual_three_passes_through() {
    let blocks = format_entry(&entry("stra\u{df}e", "x", None), TIME);
    assert_eq!(blocks[0], Block::Section("*STRASSE - 2024-01-15 10:30:00 UTC*".to_string()));
}

#[test]
fn header_block_takes_the_role_as_it_is() {
    assert_eq!(header_block("human", "now"), Block::Section("*human - now*".to_string()));
    assert_eq!(header_block("", ""), Block::Section("* - *".to_string()));
}

#[test]
fn context_block_has_the_label_in_front() {
    assert_eq!(context_block("commit abc123"), Block::Context("Context: commit abc123".to_string()));
}

#[test]
fn layout_blocks_does_not_change_the_role() {
    let blocks = layout_blocks("human", "m", Some("c"), "t");
    assert_eq!(
        blocks,
        vec![
            Block::Section("*human - t*".to_string()),
            Block::Section("m".to_string()),
            Block::Context("Context: c".to_string()),
            Block::Divider,
        ]
    );
}

fn number(text: &str, low: u32, high: u32) -> bool {
    text.len() == 2
        && text.bytes().all(|byte| byte.is_ascii_digit())
        && text.parse::<u32>().map_or(false, |value| low <= value && value <= high)
}

#[test]
fn now_label_is_a_utc_date_and_time() {
    let label = now_label();
    assert!(label.is_ascii());
    assert!(label.len() >= 23);
    let (year, tail) = label.split_at(label.len() - 19);
    if year.len() == 4 {
        assert!(year.bytes().all(|byte| byte.is_ascii_digit()));
        assert!(year >= "2024");
    } else {
        assert!(year.len() >= 6);
        assert!(year.starts_with('+'));
        assert!(year[1..].bytes().all(|byte| byte.is_ascii_digit()));
    }
    assert_eq!(&tail[0..1], "-");
    assert!(number(&tail[1..3], 1, 12));
    assert_eq!(&tail[3..4], "-");
    assert!(number(&tail[4..6], 1, 31));
    assert_eq!(&tail[6..7], " ");
    assert!(number(&tail[7..9], 0, 23));
    assert_eq!(&tail[9..10], ":");
    assert!(number(&tail[10..12], 0, 59));
    assert_eq!(&tail[12..13], ":");
    assert!(number(&tail[13..15], 0, 60));
    assert_eq!(&tail[15..], " UTC");
}
