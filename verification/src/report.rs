//! The lines of text that tell a user why the arguments were rejected.

use crate::range::{Advice, Diagnostic, DiagnosticView, Finding, Violation};
use crate::text::{decimal_string, decimal_text};
use vstd::prelude::*;

verus! {

/// Whether a line reports the error or tells what to do about it.
#[derive(Debug, Clone, Copy, PartialEq, Eq)]
pub enum LineKind {
    Error,
    Info,
}

/// One line of a diagnostic. The text has no line end of its own; where it ends in
/// a line feed, an empty line follows it.
#[derive(Debug, Clone, PartialEq, Eq)]
pub struct Line {
    pub kind: LineKind,
    pub text: String,
}

/// The mathematical content of a [`Line`].
pub struct LineView {
    pub kind: LineKind,
    pub text: Seq<char>,
}

impl View for Line {
    type V = LineView;

    open spec fn view(&self) -> LineView {
        LineView { kind: self.kind, text: self.text@ }
    }
}

/// The views of the lines of `lines`, in order.
pub open spec fn lines_view(lines: Seq<Line>) -> Seq<LineView> {
    Seq::new(lines.len(), |i: int| lines[i]@)
}

/// A line that reports an error.
pub open spec fn error_line(text: Seq<char>) -> LineView {
    LineView { kind: LineKind::Error, text }
}

/// A line that gives information.
pub open spec fn info_line(text: Seq<char>) -> LineView {
    LineView { kind: LineKind::Info, text }
}

/// Two numbers in decimal between three pieces of text.
pub open spec fn framed(a: Seq<char>, x: nat, b: Seq<char>, y: nat, c: Seq<char>) -> Seq<char> {
    a + decimal_text(x) + b + decimal_text(y) + c
}

/// The message that reports a violation.
pub open spec fn violation_text(v: Violation) -> Seq<char> {
    match v {
        Violation::StartExceedsMaxIndex { start, max_index } => framed(
            "Error: start_addr (-s "@,
            start as nat,
            ") exceeds file_max_index ("@,
            max_index as nat,
            ")"@,
        ),
        Violation::CountExceedsFilesize { count, filesize } => framed(
            "Error: num_bytes (-n "@,
            count as nat,
            ") exceeds filesize ("@,
            filesize as nat,
            ")"@,
        ),
        Violation::CountIsZero => "Error: num_bytes (-n 0) can't be 0 (can't show 0 bytes)"@,
        Violation::EndExceedsMaxIndex { end, max_index } => framed(
            "Error: end_addr (-e "@,
            end as nat,
            ") exceeds file_max_index ("@,
            max_index as nat,
            ")"@,
        ),
        Violation::DerivedEndExceedsMaxIndex { end, max_index } => framed(
            "Error: calculated end_addr ("@,
            end as nat,
            ") exceeds file_max_index ("@,
            max_index as nat,
            ")"@,
        ),
        Violation::DerivedStartExceedsMaxIndex { start, max_index } => framed(
            "Error: calculated start_addr ("@,
            start as nat,
            ") exceeds file_max_index ("@,
            max_index as nat,
            ")"@,
        ),
        Violation::StartAfterEnd { start, end } => framed(
            "Error: start_addr (-s "@,
            start as nat,
            ") is bigger than end_addr (-e "@,
            end as nat,
            ")"@,
        ),
        Violation::CountExceedsEnd { count, end } => framed(
            "Error: num_bytes (-n "@,
            count as nat,
            ") is bigger than end_addr (-e "@,
            end as nat,
            ")"@,
        ),
    }
}

/// The suggestion that an advice stands for, with the line feed that sets it off
/// from what follows; nothing where the advice is none or only an empty line.
pub open spec fn advice_text(a: Advice) -> Seq<char> {
    match a {
        Advice::Nothing => Seq::empty(),
        Advice::Blank => Seq::empty(),
        Advice::ReduceStart => "Consider: reduce -s to be in file range\n"@,
        Advice::ReduceCount => "Consider: reduce -n to be in file range\n"@,
        Advice::ReduceCountOrDrop => "Consider: reduce -n to be in file range or drop -n arg to dump file from -s to eof\n"@,
        Advice::ReduceEnd => "Consider: reduce -e to be in file range\n"@,
        Advice::StartUpToEnd => "Consider: reduce -s to be <= -e\n"@,
        Advice::CountUpToEnd => "Consider: reduce -n to be <= -e + 1\n"@,
    }
}

/// The lines of one finding: its message, and its suggestion where it has one.
pub open spec fn finding_lines(f: Finding) -> Seq<LineView> {
    match f.advice {
        Advice::Nothing => seq![error_line(violation_text(f.violation))],
        Advice::Blank => seq![error_line(violation_text(f.violation) + "\n"@)],
        _ => seq![error_line(violation_text(f.violation)), info_line(advice_text(f.advice))],
    }
}

/// The lines of all findings, in their order.
pub open spec fn findings_lines(findings: Seq<Finding>) -> Seq<LineView>
    decreases findings.len(),
{
    if findings.len() == 0 {
        Seq::empty()
    } else {
        findings_lines(findings.drop_last()) + finding_lines(findings.last())
    }
}

/// The usage block shown when start, count and end were all given.
pub open spec fn combination_usage() -> Seq<LineView> {
    seq![
        error_line("Error: invalid use of args (-s, -n, -e)"@),
        info_line("----------------------Usage----------------------"@),
        info_line("-s:    Prints data from address -s to end of file"@),
        info_line("-n:    Prints -n bytes starting from address 0"@),
        info_line("-e:    Prints data from address 0 to address -e"@),
        info_line("-s -n: Prints -n bytes starting from address -s"@),
        info_line("-s -e: Prints data from address -s to address -e"@),
        info_line("-n -e: Prints -n bytes back from address -e"@),
        error_line("-s -n -e: INVALID COMBINATION"@),
    ]
}

/// The usage block shown when `token` names no visualization mode.
pub open spec fn visualization_usage(token: Seq<char>) -> Seq<LineView> {
    seq![
        error_line("Error: unknown visualization (-v "@ + token + " does not exist)"@),
        info_line("-------------------------Usage--------------------------"@),
        info_line("-v ascii:   Highlights ascii printable bytes"@),
        info_line("-v zeros:   Highlights bytes that have the value 0"@),
        info_line("-v high:    Highlights bytes that have a value >= 0x80"@),
        info_line("-v control: Highlights bytes that are control characters"@),
    ]
}

/// All lines of a diagnostic, in the order they are shown.
pub open spec fn diagnostic_lines(d: DiagnosticView) -> Seq<LineView> {
    match d {
        DiagnosticView::Violations(findings) => findings_lines(findings),
        DiagnosticView::InvalidCombination => combination_usage(),
        DiagnosticView::UnknownVisualization(token) => visualization_usage(token),
    }
}

fn framed_string(a: &str, x: u128, b: &str, y: u128, c: &str) -> (s: String)
    ensures
        s@ == framed(a@, x as nat, b@, y as nat, c@),
{
    let mut s = String::from_str(a);
    s.append(decimal_string(x).as_str());
    s.append(b);
    s.append(decimal_string(y).as_str());
    s.append(c);
    s
}

fn put(lines: &mut Vec<Line>, kind: LineKind, text: String)
    ensures
        lines_view(final(lines)@) == lines_view(old(lines)@).push(LineView { kind, text: text@ }),
{
    let ghost shown = LineView { kind, text: text@ };
    lines.push(Line { kind, text });
    proof {
        assert(lines_view(lines@) =~= lines_view(old(lines)@).push(shown));
    }
}

fn put_str(lines: &mut Vec<Line>, kind: LineKind, text: &str)
    ensures
        lines_view(final(lines)@) == lines_view(old(lines)@).push(LineView { kind, text: text@ }),
{
    put(lines, kind, String::from_str(text));
}

impl Violation {
    /// The message that reports this violation.
    pub fn message(&self) -> (s: String)
        ensures
            s@ == violation_text(*self),
    {
        match *self {
            Violation::StartExceedsMaxIndex { start, max_index } => framed_string(
                "Error: start_addr (-s ",
                start as u128,
                ") exceeds file_max_index (",
                max_index as u128,
                ")",
            ),
            Violation::CountExceedsFilesize { count, filesize } => framed_string(
                "Error: num_bytes (-n ",
                count as u128,
                ") exceeds filesize (",
                filesize as u128,
                ")",
            ),
            Violation::CountIsZero => String::from_str(
                "Error: num_bytes (-n 0) can't be 0 (can't show 0 bytes)",
            ),
            Violation::EndExceedsMaxIndex { end, max_index } => framed_string(
                "Error: end_addr (-e ",
                end as u128,
                ") exceeds file_max_index (",
                max_index as u128,
                ")",
            ),
            Violation::DerivedEndExceedsMaxIndex { end, max_index } => framed_string(
                "Error: calculated end_addr (",
                end,
                ") exceeds file_max_index (",
                max_index as u128,
                ")",
            ),
            Violation::DerivedStartExceedsMaxIndex { start, max_index } => framed_string(
                "Error: calculated start_addr (",
                start,
                ") exceeds file_max_index (",
                max_index as u128,
                ")",
            ),
            Violation::StartAfterEnd { start, end } => framed_string(
                "Error: start_addr (-s ",
                start as u128,
                ") is bigger than end_addr (-e ",
                end as u128,
                ")",
            ),
            Violation::CountExceedsEnd { count, end } => framed_string(
                "Error: num_bytes (-n ",
                count as u128,
                ") is bigger than end_addr (-e ",
                end as u128,
                ")",
            ),
        }
    }
}

impl Advice {
    /// The suggestion as text, empty where there is none.
    pub fn text(&self) -> (s: String)
        ensures
            s@ == advice_text(*self),
    {
        match *self {
            Advice::Nothing => String::new(),
            Advice::Blank => String::new(),
            Advice::ReduceStart => String::from_str("Consider: reduce -s to be in file range\n"),
            Advice::ReduceCount => String::from_str("Consider: reduce -n to be in file range\n"),
            Advice::ReduceCountOrDrop => String::from_str(
                "Consider: reduce -n to be in file range or drop -n arg to dump file from -s to eof\n",
            ),
            Advice::ReduceEnd => String::from_str("Consider: reduce -e to be in file range\n"),
            Advice::StartUpToEnd => String::from_str("Consider: reduce -s to be <= -e\n"),
            Advice::CountUpToEnd => String::from_str("Consider: reduce -n to be <= -e + 1\n"),
        }
    }
}

fn put_finding(lines: &mut Vec<Line>, f: &Finding)
    ensures
        lines_view(final(lines)@) == lines_view(old(lines)@) + finding_lines(*f),
{
    let mut message = f.violation.message();
    match f.advice {
        Advice::Nothing => {
            put(lines, LineKind::Error, message);
        },
        Advice::Blank => {
            message.append("\n");
            put(lines, LineKind::Error, message);
        },
        _ => {
            put(lines, LineKind::Error, message);
            put(lines, LineKind::Info, f.advice.text());
        },
    }
    proof {
        assert(lines_view(lines@) =~= lines_view(old(lines)@) + finding_lines(*f));
    }
}

impl Diagnostic {
    /// The lines that tell the user what was wrong, in the order they are shown:
    /// for violations one message each, with its suggestion; for the other two a
    /// usage block.
    pub fn lines(&self) -> (lines: Vec<Line>)
        ensures
            lines_view(lines@) == diagnostic_lines(self@),
    {
        let mut lines: Vec<Line> = Vec::new();
        match self {
            Diagnostic::Violations(findings) => {
                let mut i: usize = 0;
                proof {
                    assert(findings@.take(0) =~= Seq::<Finding>::empty());
                    assert(lines_view(lines@) =~= Seq::<LineView>::empty());
                }
                while i < findings.len()
                    invariant
                        i <= findings.len(),
                        lines_view(lines@) == findings_lines(findings@.take(i as int)),
                    decreases findings.len() - i,
                {
                    put_finding(&mut lines, &findings[i]);
                    proof {
                        let next = findings@.take(i + 1);
                        assert(next.drop_last() =~= findings@.take(i as int));
                        assert(next.last() == findings@[i as int]);
                    }
                    i = i + 1;
                }
                proof {
                    assert(findings@.take(i as int) =~= findings@);
                }
            },
            Diagnostic::InvalidCombination => {
                put_str(&mut lines, LineKind::Error, "Error: invalid use of args (-s, -n, -e)");
                put_str(&mut lines, LineKind::Info, "----------------------Usage----------------------");
                put_str(&mut lines, LineKind::Info, "-s:    Prints data from address -s to end of file");
                put_str(&mut lines, LineKind::Info, "-n:    Prints -n bytes starting from address 0");
                put_str(&mut lines, LineKind::Info, "-e:    Prints data from address 0 to address -e");
                put_str(&mut lines, LineKind::Info, "-s -n: Prints -n bytes starting from address -s");
                put_str(&mut lines, LineKind::Info, "-s -e: Prints data from address -s to address -e");
                put_str(&mut lines, LineKind::Info, "-n -e: Prints -n bytes back from address -e");
                put_str(&mut lines, LineKind::Error, "-s -n -e: INVALID COMBINATION");
                proof {
                    assert(lines_view(lines@) =~= combination_usage());
                }
            },
            Diagnostic::UnknownVisualization(token) => {
                let mut head = String::from_str("Error: unknown visualization (-v ");
                head.append(token.as_str());
                head.append(" does not exist)");
                put(&mut lines, LineKind::Error, head);
                put_str(&mut lines, LineKind::Info, "-------------------------Usage--------------------------");
                put_str(&mut lines, LineKind::Info, "-v ascii:   Highlights ascii printable bytes");
                put_str(&mut lines, LineKind::Info, "-v zeros:   Highlights bytes that have the value 0");
                put_str(&mut lines, LineKind::Info, "-v high:    Highlights bytes that have a value >= 0x80");
                put_str(&mut lines, LineKind::Info, "-v control: Highlights bytes that are control characters");
                proof {
                    assert(lines_view(lines@) =~= visualization_usage(token@));
                }
            },
        }
        lines
    }
}

} // verus!
