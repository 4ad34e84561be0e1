//! The report of an error with the chain of errors behind it.

use vstd::prelude::*;
use crate::text::{digit, chars_of, string_of, same_text, push_str, push_all};

verus! {

/// The most lines that a report holds before it breaks off.
pub const MAX_LINES: usize = 8;

/// Where a report stands: the text so far, the message of the line written
/// last, the number of lines, and whether the report has broken off.
pub struct Report {
    /// The text so far.
    pub text: Seq<char>,
    /// The message written last.
    pub past: Seq<char>,
    /// The number of lines written.
    pub lines: nat,
    /// The report has broken off.
    pub closed: bool,
}

/// One line of a report: the number of the line and the message, indented.
pub open spec fn line(number: nat, message: Seq<char>) -> Seq<char> {
    "\n    "@.push(digit(number)) + ": "@ + message
}

/// The report after one more message of the chain. A message that repeats
/// the line before it is passed over. Once the report holds `MAX_LINES` lines it
/// breaks off with a line of dots, and takes nothing more.
pub open spec fn with_source(report: Report, message: Seq<char>) -> Report {
    if report.closed {
        report
    } else {
        let noted = if message != report.past {
            Report {
                text: report.text + line(report.lines, message),
                past: message,
                lines: report.lines + 1,
                closed: false,
            }
        } else {
            report
        };
        if noted.lines >= MAX_LINES {
            Report { text: noted.text + "\n    ..."@, closed: true, ..noted }
        } else {
            noted
        }
    }
}

/// The report after the messages of the chain.
pub open spec fn with_sources(report: Report, sources: Seq<String>) -> Report
    decreases sources.len(),
{
    if sources.len() == 0 {
        report
    } else {
        with_source(with_sources(report, sources.drop_last()), sources.last()@)
    }
}

/// The report of an error and the chain of errors behind it: each message on
/// a line of its own, numbered from 0.
pub open spec fn error_chain(error: Seq<char>, sources: Seq<String>) -> Seq<char> {
    with_sources(Report { text: line(0, error), past: error, lines: 1, closed: false }, sources).text
}

/// Formats an error with the chain of errors behind it, the error's own
/// message first and then the messages of its sources, outermost first.
pub fn format_error_chain(error: &str, sources: &Vec<String>) -> (report: String)
    ensures
        report@ == error_chain(error@, sources@),
{
    let mut text: Vec<char> = Vec::new();
    push_str(&mut text, "\n    ");
    text.push('0');
    push_str(&mut text, ": ");
    push_str(&mut text, error);
    let mut past: Vec<char> = chars_of(error);
    let mut lines: usize = 1;
    let mut closed = false;
    let mut i: usize = 0;
    assert(sources@.take(0) == Seq::<String>::empty());
    assert(text@ =~= line(0, error@));
    while i < sources.len() && !closed
        invariant
            i <= sources.len(),
            1 <= lines <= MAX_LINES,
            lines == MAX_LINES ==> closed,
            with_sources(
                Report { text: line(0, error@), past: error@, lines: 1, closed: false },
                sources@.take(i as int),
            ) == (Report { text: text@, past: past@, lines: lines as nat, closed }),
        decreases sources.len() - i,
    {
        assert(sources@.take(i + 1).drop_last() == sources@.take(i as int));
        assert(sources@.take(i + 1).last() == sources@[i as int]);
        let message = chars_of(sources[i].as_str());
        let ghost before = text@;
        if !same_text(message.as_slice(), past.as_slice()) {
            push_str(&mut text, "\n    ");
            text.push((48u8 + lines as u8) as char);
            push_str(&mut text, ": ");
            push_all(&mut text, message.as_slice());
            assert(text@ =~= before + line(lines as nat, message@));
            past = message;
            lines = lines + 1;
        }
        if lines >= MAX_LINES {
            push_str(&mut text, "\n    ...");
            closed = true;
        }
        i += 1;
    }
    proof {
        lemma_closed_stays(
            Report { text: line(0, error@), past: error@, lines: 1, closed: false },
            sources@,
            i as int,
        );
    }
    string_of(text.as_slice())
}

proof fn lemma_closed_stays(start: Report, sources: Seq<String>, n: int)
    requires
        0 <= n <= sources.len(),
        n < sources.len() ==> with_sources(start, sources.take(n)).closed,
    ensures
        with_sources(start, sources) == with_sources(start, sources.take(n)),
    decreases sources.len() - n,
{
    if n < sources.len() {
        assert(sources.take(n + 1).drop_last() == sources.take(n));
        lemma_closed_stays(start, sources, n + 1);
    } else {
        assert(sources.take(n) == sources);
    }
}

} // verus!
