use vstd::prelude::*;
use crate::text::{contains_seq, contains_str};

verus! {

/// How a log line is shown.
#[derive(Clone, Copy, Debug, PartialEq, Eq, Structural)]
pub enum Severity {
    Info,
    Warning,
    Error,
    Success,
}

/// The marker that a rendered line of each severity starts with.
pub open spec fn marker(s: Severity) -> Seq<char> {
    match s {
        Severity::Info => seq!['[', 'i', 'n', 'f', 'o', ']'],
        Severity::Warning => seq!['[', 'w', 'a', 'r', 'n', ']'],
        Severity::Error => seq!['[', 'e', 'r', 'r', 'o', 'r', ']'],
        Severity::Success => seq!['[', 'o', 'k', ']'],
    }
}

/// The severity that a line of log text is shown with: an error marker wins
/// over a success marker, which wins over a warning marker.
pub open spec fn classified(line: Seq<char>) -> Severity {
    if contains_seq(line, marker(Severity::Error)) {
        Severity::Error
    } else if contains_seq(line, marker(Severity::Success)) {
        Severity::Success
    } else if contains_seq(line, marker(Severity::Warning)) {
        Severity::Warning
    } else {
        Severity::Info
    }
}

/// One line of a job's log.
pub struct LogLine {
    pub severity: Severity,
    pub text: String,
}

impl View for LogLine {
    type V = (Severity, Seq<char>);

    open spec fn view(&self) -> (Severity, Seq<char>) {
        (self.severity, self.text@)
    }
}

/// The text a line is displayed as: its marker, a space, its message.
pub open spec fn rendered(l: (Severity, Seq<char>)) -> Seq<char> {
    marker(l.0) + seq![' '] + l.1
}

/// The marker of a severity.
pub fn marker_str(s: Severity) -> (r: &'static str)
    ensures
        r@ == marker(s),
{
    match s {
        Severity::Info => {
            proof {
                reveal_strlit("[info]");
            }
            "[info]"
        },
        Severity::Warning => {
            proof {
                reveal_strlit("[warn]");
            }
            "[warn]"
        },
        Severity::Error => {
            proof {
                reveal_strlit("[error]");
            }
            "[error]"
        },
        Severity::Success => {
            proof {
                reveal_strlit("[ok]");
            }
            "[ok]"
        },
    }
}

impl LogLine {
    /// A line of the given severity.
    pub fn new(severity: Severity, text: String) -> (r: LogLine)
        ensures
            r@ == (severity, text@),
    {
        LogLine { severity, text }
    }

    /// The line as displayed.
    pub fn render(&self) -> (r: String)
        ensures
            r@ == rendered(self@),
    {
        proof {
            reveal_strlit(" ");
        }
        let mut r = String::from_str(marker_str(self.severity));
        r.append(" ");
        r.append(self.text.as_str());
        r
    }
}

/// The severity a line of log text is shown with.
pub fn classify_line(line: &str) -> (r: Severity)
    ensures
        r == classified(line@),
{
    if contains_str(line, marker_str(Severity::Error)) {
        Severity::Error
    } else if contains_str(line, marker_str(Severity::Success)) {
        Severity::Success
    } else if contains_str(line, marker_str(Severity::Warning)) {
        Severity::Warning
    } else {
        Severity::Info
    }
}

} // verus!
