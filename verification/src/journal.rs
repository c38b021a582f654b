//! Lines for the log. The library writes no log itself: it hands the lines
//! to its caller.

use vstd::prelude::*;
use vstd::string::*;

verus! {

/// How serious a log line is.
#[derive(Clone, Copy, Debug, PartialEq, Eq, Structural)]
pub enum Level {
    Error,
    Warn,
    Info,
}

/// One line for the log.
#[derive(Clone, Debug, PartialEq, Eq)]
pub struct LogLine {
    pub level: Level,
    pub text: String,
}

/// A log line as plain values.
pub struct LogLineView {
    pub level: Level,
    pub text: Seq<char>,
}

impl View for LogLine {
    type V = LogLineView;

    open spec fn view(&self) -> LogLineView {
        LogLineView { level: self.level, text: self.text@ }
    }
}

impl DeepView for LogLine {
    type V = LogLineView;

    open spec fn deep_view(&self) -> LogLineView {
        self@
    }
}

/// The line that is `head` followed by `tail`.
pub open spec fn line_of(level: Level, head: Seq<char>, tail: Seq<char>) -> LogLineView {
    LogLineView { level, text: head + tail }
}

impl LogLine {
    /// A line of the given level whose text is `head` followed by `tail`.
    pub fn new(level: Level, head: &str, tail: &str) -> (line: LogLine)
        ensures
            line@ == line_of(level, head@, tail@),
    {
        let mut text = String::from_str(head);
        text.append(tail);
        LogLine { level, text }
    }
}

/// Adding a line to a log adds its view to the log's view.
pub proof fn lemma_push_line(before: Vec<LogLine>, after: Vec<LogLine>, line: LogLine)
    requires
        after@ == before@.push(line),
    ensures
        after.deep_view() == before.deep_view().push(line@),
{
    assert(after.deep_view() =~= before.deep_view().push(line@));
}

} // verus!
