//! The wall clock, read through `chrono`.

use vstd::prelude::*;

verus! {

/// The pattern in which an entry's time is written: date and time of day,
/// to the second, in UTC.
pub open spec fn timestamp_pattern() -> Seq<char> {
    "%Y-%m-%d %H:%M:%S UTC"@
}

/// Whether a character is a decimal digit.
pub open spec fn is_digit(c: char) -> bool {
    '0' <= c <= '9'
}

/// Whether two characters are the digits of a number between `low` and
/// `high`.
pub open spec fn is_number(tens: char, ones: char, low: int, high: int) -> bool {
    &&& is_digit(tens)
    &&& is_digit(ones)
    &&& low <= (tens as int - '0' as int) * 10 + (ones as int - '0' as int) <= high
}

/// Whether a text is a year as the clock writes it: four digits, or a plus
/// sign and five or more digits for a year after 9999.
pub open spec fn is_year(year: Seq<char>) -> bool {
    if year.len() == 4 {
        forall|i: int| 0 <= i < 4 ==> is_digit(#[trigger] year[i])
    } else {
        &&& year.len() >= 6
        &&& year[0] == '+'
        &&& forall|i: int| 1 <= i < year.len() ==> is_digit(#[trigger] year[i])
    }
}

/// Whether a text is what follows the year: `-MM-DD HH:MM:SS UTC`, with the
/// month from 01 to 12, the day from 01 to 31, the hour from 00 to 23, the
/// minute from 00 to 59 and the second from 00 to 60.
pub open spec fn is_day_and_time(tail: Seq<char>) -> bool {
    &&& tail.len() == 19
    &&& tail[0] == '-'
    &&& is_number(tail[1], tail[2], 1, 12)
    &&& tail[3] == '-'
    &&& is_number(tail[4], tail[5], 1, 31)
    &&& tail[6] == ' '
    &&& is_number(tail[7], tail[8], 0, 23)
    &&& tail[9] == ':'
    &&& is_number(tail[10], tail[11], 0, 59)
    &&& tail[12] == ':'
    &&& is_number(tail[13], tail[14], 0, 60)
    &&& tail[15] == ' '
    &&& tail[16] == 'U'
    &&& tail[17] == 'T'
    &&& tail[18] == 'C'
}

/// Whether a text is a time written as `YYYY-MM-DD HH:MM:SS UTC`.
pub open spec fn is_utc_label(label: Seq<char>) -> bool {
    &&& label.len() >= 23
    &&& is_year(label.subrange(0, label.len() - 19))
    &&& is_day_and_time(label.subrange(label.len() - 19, label.len() as int))
}

/// The first second of 1970 as the clock would write it.
pub open spec fn epoch_label() -> Seq<char> {
    seq![
        '1', '9', '7', '0', '-', '0', '1', '-', '0', '1', ' ', '0', '0', ':', '0', '0', ':', '0',
        '0', ' ', 'U', 'T', 'C',
    ]
}

/// There is a text that the clock could give.
pub proof fn lemma_epoch_is_utc_label()
    ensures
        is_utc_label(epoch_label()),
{
    let label = epoch_label();
    let year = label.subrange(0, 4);
    let tail = label.subrange(4, 23);
    assert(label.len() == 23);
    assert(is_year(year));
    assert(tail.len() == 19);
    assert(is_day_and_time(tail));
}

/// Calls `chrono::Utc::now` and writes the time in the given pattern with
/// `DateTime::format`. Trusted: the text has the shape that `chrono`
/// documents for the pattern's items, whatever the time is: the year in
/// four digits, or with a plus sign after 9999, then month, day, hour,
/// minute and second in two digits each, and the pattern's own characters
/// between and after them. Which time it is differs from call to call, and
/// nothing is claimed of that. Only the one pattern is admitted, because
/// `chrono` stops the program on a pattern that it cannot read. It also
/// stops the program where the system clock stands before 1970.
#[verifier::external_body]
pub(crate) fn utc_now(pattern: &str) -> (label: String)
    requires
        pattern@ == timestamp_pattern(),
    ensures
        is_utc_label(label@),
{
    chrono::Utc::now().format(pattern).to_string()
}

/// The current time in UTC, written as `YYYY-MM-DD HH:MM:SS UTC`.
pub fn now_label() -> (label: String)
    ensures
        is_utc_label(label@),
{
    utc_now("%Y-%m-%d %H:%M:%S UTC")
}

} // verus!
