//! The change log: a text of one address per line, whose last line is the
//! address that every service was last told of.

use vstd::prelude::*;

verus! {

/// The file that holds the change log, relative to the working directory.
pub const LOG_FILE: &'static str = "log.txt";

/// What stands for the last entry of a log that has none.
pub const NO_ENTRY: &'static str = "0.0.0.0";

/// The index at which the last line of `s` begins: just behind its last line
/// feed, or 0 where it has none.
pub open spec fn last_line_start(s: Seq<char>) -> int
    decreases s.len(),
{
    if s.len() == 0 || s.last() == '\n' {
        s.len() as int
    } else {
        last_line_start(s.drop_last())
    }
}

/// `s` without the line feed that ends it, if one does.
pub open spec fn unterminated(s: Seq<char>) -> Seq<char> {
    if s.len() > 0 && s.last() == '\n' {
        s.drop_last()
    } else {
        s
    }
}

/// The last line of a text that is not empty. A line ends at a line feed or
/// at the end of the text; a carriage return just before the line feed
/// belongs to the line's end as well.
pub open spec fn last_line(s: Seq<char>) -> Seq<char> {
    let body = unterminated(s);
    let raw = body.skip(last_line_start(body));
    if s.len() > 0 && s.last() == '\n' && raw.len() > 0 && raw.last() == '\r' {
        raw.drop_last()
    } else {
        raw
    }
}

/// What stands before the last line of `s`.
pub open spec fn before_last_line(s: Seq<char>) -> Seq<char> {
    let body = unterminated(s);
    body.take(last_line_start(body))
}

/// The lines of `s`, first to last. The empty text has no line.
pub open spec fn lines(s: Seq<char>) -> Seq<Seq<char>>
    decreases s.len(),
    via lines_decreases
{
    if s.len() == 0 {
        Seq::empty()
    } else {
        lines(before_last_line(s)).push(last_line(s))
    }
}

#[via_fn]
proof fn lines_decreases(s: Seq<char>) {
    if s.len() > 0 {
        lemma_last_line_start(unterminated(s));
    }
}

/// The last line of the log `s`, or [`NO_ENTRY`] where it has no line.
pub open spec fn last_entry_spec(s: Seq<char>) -> Seq<char> {
    if lines(s).len() == 0 {
        NO_ENTRY@
    } else {
        lines(s).last()
    }
}

/// What appending `value` writes: the value and a line feed.
pub open spec fn entry_line_spec(value: Seq<char>) -> Seq<char> {
    value.push('\n')
}

/// Whether `value` can stand as one line of a log: it holds no line feed and
/// does not end in a carriage return.
pub open spec fn is_single_line(value: Seq<char>) -> bool {
    &&& forall|k: int| 0 <= k < value.len() ==> value[k] != '\n'
    &&& value.len() > 0 ==> value.last() != '\r'
}

/// Whether every line of the log `s` is ended by a line feed.
pub open spec fn is_terminated(s: Seq<char>) -> bool {
    s.len() == 0 || s.last() == '\n'
}

/// The last line begins inside the text, just behind a line feed or at the
/// start, and holds no line feed.
pub proof fn lemma_last_line_start(s: Seq<char>)
    ensures
        0 <= last_line_start(s) <= s.len(),
        s.len() > 0 && s.last() != '\n' ==> last_line_start(s) < s.len(),
        last_line_start(s) == 0 || s[last_line_start(s) - 1] == '\n',
        forall|k: int| last_line_start(s) <= k < s.len() ==> s[k] != '\n',
    decreases s.len(),
{
    if s.len() == 0 || s.last() == '\n' {
    } else {
        let t = s.drop_last();
        lemma_last_line_start(t);
        assert forall|k: int| last_line_start(s) <= k < s.len() implies s[k] != '\n' by {
            if k < t.len() {
                assert(t[k] == s[k]);
            }
        }
    }
}

/// The last line of `s` begins at `start` where no line feed follows `start`
/// and one stands just before it, or `start` is 0.
pub proof fn lemma_last_line_start_is(s: Seq<char>, start: int)
    requires
        0 <= start <= s.len(),
        start == 0 || s[start - 1] == '\n',
        forall|k: int| start <= k < s.len() ==> s[k] != '\n',
    ensures
        last_line_start(s) == start,
    decreases s.len() - start,
{
    if start == s.len() {
    } else {
        lemma_last_line_start_is(s.drop_last(), start);
    }
}

/// Appending one entry to a log whose lines are all ended adds exactly one
/// line, the entry, and leaves the lines before it as they were.
pub proof fn law_append_adds_one_line(log: Seq<char>, value: Seq<char>)
    requires
        is_terminated(log),
        is_single_line(value),
    ensures
        lines(log + entry_line_spec(value)) == lines(log).push(value),
        last_entry_spec(log + entry_line_spec(value)) == value,
        is_terminated(log + entry_line_spec(value)),
{
    let after = log + entry_line_spec(value);
    lemma_last_line_start_is(unterminated(after), log.len() as int);
    assert(last_line(after) == value);
    assert(before_last_line(after) == log);
}

/// Reading back what was just appended gives the appended value.
pub proof fn law_append_then_read(log: Seq<char>, value: Seq<char>)
    requires
        is_terminated(log),
        is_single_line(value),
    ensures
        last_entry_spec(log + entry_line_spec(value)) == value,
{
    law_append_adds_one_line(log, value);
}

/// The last entry of a log with the text `contents`: its last line, or
/// [`NO_ENTRY`] where the log is empty.
pub fn last_entry(contents: &str) -> (entry: String)
    ensures
        entry@ == last_entry_spec(contents@),
        contents@.len() == 0 ==> entry@ == NO_ENTRY@,
{
    let len = contents.unicode_len();
    if len == 0 {
        return String::from_str(NO_ENTRY);
    }
    let terminated = contents.get_char(len - 1) == '\n';
    let end: usize = if terminated {
        len - 1
    } else {
        len
    };
    let ghost body = unterminated(contents@);
    let mut start: usize = end;
    while start > 0 && contents.get_char(start - 1) != '\n'
        invariant
            start <= end <= len,
            len == contents@.len(),
            body == contents@.take(end as int),
            forall|k: int| start <= k < end ==> body[k] != '\n',
        decreases start,
    {
        start = start - 1;
    }
    proof {
        lemma_last_line_start_is(body, start as int);
    }
    let mut stop: usize = end;
    if terminated && stop > start && contents.get_char(stop - 1) == '\r' {
        stop = stop - 1;
    }
    String::from_str(contents.substring_char(start, stop))
}

/// What is written to the log to append `value`: the value and a line feed.
pub fn entry_line(value: &str) -> (line: String)
    ensures
        line@ == entry_line_spec(value@),
{
    let mut line = String::from_str(value);
    line.append("\n");
    proof {
        reveal_strlit("\n");
    }
    line
}

/// The text of a change log, as it stands in its file.
#[derive(Debug, PartialEq, Eq)]
pub struct ChangeLog {
    pub text: String,
}

impl View for ChangeLog {
    type V = Seq<char>;

    open spec fn view(&self) -> Seq<char> {
        self.text@
    }
}

impl ChangeLog {
    /// The log of a file that was just created: it has no entry.
    pub fn new() -> (log: ChangeLog)
        ensures
            log@ == Seq::<char>::empty(),
    {
        ChangeLog { text: String::new() }
    }

    /// The log whose file holds `text`.
    pub fn from_text(text: String) -> (log: ChangeLog)
        ensures
            log@ == text@,
    {
        ChangeLog { text }
    }

    /// The last entry, or [`NO_ENTRY`] where the log has none.
    pub fn read_last_entry(&self) -> (entry: String)
        ensures
            entry@ == last_entry_spec(self@),
            self@.len() == 0 ==> entry@ == NO_ENTRY@,
    {
        last_entry(self.text.as_str())
    }

    /// Appends `value` as a new last line.
    pub fn append_entry(&mut self, value: &str)
        ensures
            final(self)@ == old(self)@ + entry_line_spec(value@),
    {
        let line = entry_line(value);
        self.text.append(line.as_str());
    }
}

} // verus!
