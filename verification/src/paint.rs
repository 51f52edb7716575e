//! Pieces of the dump as terminal text: each in its colour where the terminal takes colours.

use crate::dump::VisuMode;
use crate::render::{
    glyph_span, hex_cell_spans, hex_column, repeated, row_gap, row_spans, text_column, Span,
    SpanView, Tint,
};
use crate::text::{digit_char, hex_text, zero_padded};
use crate::report::{Line, LineKind};
use colored::Colorize;
use vstd::prelude::*;

verus! {

/// The text holds no escape character.
pub open spec fn escape_free(text: Seq<char>) -> bool {
    forall|i: int| 0 <= i < text.len() ==> text[i] != '\u{1b}'
}

/// `text` between the escape sequence that selects the colour of `code` and the
/// one that resets it.
pub open spec fn wrapped(code: Seq<char>, text: Seq<char>) -> Seq<char> {
    "\u{1b}["@ + code + "m"@ + text + "\u{1b}[0m"@
}

/// `shown` is `text`, bare or wrapped in the colour of `code`.
pub open spec fn coloured(code: Seq<char>, text: Seq<char>, shown: Seq<char>) -> bool {
    shown == text || shown == wrapped(code, text)
}

/// `shown` is `text`, bare or wrapped in some colour.
pub open spec fn coloured_somehow(text: Seq<char>, shown: Seq<char>) -> bool {
    shown == text || exists|code: Seq<char>| shown == wrapped(code, text)
}

/// `shown` is the piece as a terminal may get it: its text, bare where colours are
/// off or the piece is plain, and otherwise wrapped in its colour. The two greys
/// have no fixed code: the terminal's abilities decide on it.
pub open spec fn shows(piece: SpanView, shown: Seq<char>) -> bool {
    match piece.tint {
        Tint::Plain => shown == piece.text,
        Tint::Frame => coloured_somehow(piece.text, shown),
        Tint::Dark => coloured_somehow(piece.text, shown),
        Tint::Cyan => coloured("36"@, piece.text, shown),
        Tint::Yellow => coloured("33"@, piece.text, shown),
        Tint::BrightGreen => coloured("92"@, piece.text, shown),
        Tint::BrightRed => coloured("91"@, piece.text, shown),
        Tint::BrightMagenta => coloured("95"@, piece.text, shown),
        Tint::BrightBlue => coloured("94"@, piece.text, shown),
    }
}

/// Calls `Colorize::cyan` of the crate colored and formats the result. Whether
/// colours are on is the environment's matter: the result is the text, bare or
/// between the sequence of code 36 and the reset. (A text that holds a reset
/// sequence is rewritten, so the claim is for texts without escape characters.)
#[verifier::external_body]
fn cyan(text: &str) -> (shown: String)
    ensures
        escape_free(text@) ==> coloured("36"@, text@, shown@),
{
    text.cyan().to_string()
}

/// Calls `Colorize::yellow` of the crate colored and formats the result: the
/// text, bare or between the sequence of code 33 and the reset.
#[verifier::external_body]
fn yellow(text: &str) -> (shown: String)
    ensures
        escape_free(text@) ==> coloured("33"@, text@, shown@),
{
    text.yellow().to_string()
}

/// Calls `Colorize::bright_green` of the crate colored and formats the result:
/// the text, bare or between the sequence of code 92 and the reset.
#[verifier::external_body]
fn bright_green(text: &str) -> (shown: String)
    ensures
        escape_free(text@) ==> coloured("92"@, text@, shown@),
{
    text.bright_green().to_string()
}

/// Calls `Colorize::bright_red` of the crate colored and formats the result: the
/// text, bare or between the sequence of code 91 and the reset.
#[verifier::external_body]
fn bright_red(text: &str) -> (shown: String)
    ensures
        escape_free(text@) ==> coloured("91"@, text@, shown@),
{
    text.bright_red().to_string()
}

/// Calls `Colorize::bright_magenta` of the crate colored and formats the result:
/// the text, bare or between the sequence of code 95 and the reset.
#[verifier::external_body]
fn bright_magenta(text: &str) -> (shown: String)
    ensures
        escape_free(text@) ==> coloured("95"@, text@, shown@),
{
    text.bright_magenta().to_string()
}

/// Calls `Colorize::bright_blue` of the crate colored and formats the result: the
/// text, bare or between the sequence of code 94 and the reset.
#[verifier::external_body]
fn bright_blue(text: &str) -> (shown: String)
    ensures
        escape_free(text@) ==> coloured("94"@, text@, shown@),
{
    text.bright_blue().to_string()
}

/// Calls `Colorize::truecolor` of the crate colored and formats the result: the
/// text, bare or between a colour sequence and the reset. The code is that of the
/// colour itself or of the nearest colour the terminal is known to have.
#[verifier::external_body]
fn truecolor(text: &str, r: u8, g: u8, b: u8) -> (shown: String)
    ensures
        escape_free(text@) ==> coloured_somehow(text@, shown@),
{
    text.truecolor(r, g, b).to_string()
}

/// The level of red, green and blue in the grey of the frame.
pub const FRAME_GREY: u8 = 120;

/// The level of red, green and blue in the dark grey of placeholders.
pub const DARK_GREY: u8 = 64;

/// The piece as text for the terminal: plain pieces as they are, the others in
/// their colour where colours are on.
pub fn paint(piece: &Span) -> (shown: String)
    ensures
        piece.tint == Tint::Plain ==> shown@ == piece.text@,
        escape_free(piece.text@) ==> shows(piece@, shown@),
{
    let text = piece.text.as_str();
    match piece.tint {
        Tint::Plain => String::from_str(text),
        Tint::Frame => truecolor(text, FRAME_GREY, FRAME_GREY, FRAME_GREY),
        Tint::Dark => truecolor(text, DARK_GREY, DARK_GREY, DARK_GREY),
        Tint::Cyan => cyan(text),
        Tint::Yellow => yellow(text),
        Tint::BrightGreen => bright_green(text),
        Tint::BrightRed => bright_red(text),
        Tint::BrightMagenta => bright_magenta(text),
        Tint::BrightBlue => bright_blue(text),
    }
}

/// The colour of a diagnostic line: errors bright red, information yellow.
pub open spec fn kind_tint(kind: LineKind) -> Tint {
    match kind {
        LineKind::Error => Tint::BrightRed,
        LineKind::Info => Tint::Yellow,
    }
}

/// A diagnostic line as text for the terminal, in the colour of its kind where
/// colours are on.
pub fn paint_line(line: &Line) -> (shown: String)
    ensures
        escape_free(line.text@) ==> shows(
            SpanView { tint: kind_tint(line.kind), text: line.text@ },
            shown@,
        ),
{
    match line.kind {
        LineKind::Error => bright_red(line.text.as_str()),
        LineKind::Info => yellow(line.text.as_str()),
    }
}

/// No piece of `spans` holds an escape character.
pub open spec fn all_escape_free(spans: Seq<SpanView>) -> bool {
    forall|i: int| 0 <= i < spans.len() ==> escape_free(#[trigger] spans[i].text)
}

proof fn lemma_hex_text_escape_free(n: nat)
    ensures
        escape_free(hex_text(n)),
    decreases n,
{
    assert(digit_char(n % 16) != '\u{1b}');
    if n >= 16 {
        lemma_hex_text_escape_free(n / 16);
    } else {
        assert(digit_char(n) != '\u{1b}');
    }
}

proof fn lemma_padded_escape_free(n: nat, width: nat)
    ensures
        escape_free(zero_padded(hex_text(n), width)),
{
    lemma_hex_text_escape_free(n);
}

proof fn lemma_blanks_escape_free(n: nat)
    ensures
        escape_free(repeated(" "@, n)),
    decreases n,
{
    reveal_strlit(" ");
    if n > 0 {
        lemma_blanks_escape_free((n - 1) as nat);
    }
}

proof fn lemma_hex_column_escape_free(cells: Seq<Option<u8>>, mode: VisuMode, n: nat)
    requires
        n <= cells.len(),
    ensures
        all_escape_free(hex_column(cells, mode, n)),
    decreases n,
{
    if n > 0 {
        lemma_hex_column_escape_free(cells, mode, (n - 1) as nat);
        reveal_strlit("   ");
        reveal_strlit(" ");
        reveal_strlit("│ ");
        if cells[n - 1] is Some {
            lemma_padded_escape_free(cells[n - 1]->0 as nat, 2);
        }
        assert(all_escape_free(hex_cell_spans(cells[n - 1], mode)));
        assert(all_escape_free(row_gap(n - 1)));
    }
}

proof fn lemma_text_column_escape_free(cells: Seq<Option<u8>>, n: nat)
    requires
        n <= cells.len(),
    ensures
        all_escape_free(text_column(cells, n)),
    decreases n,
{
    if n > 0 {
        lemma_text_column_escape_free(cells, (n - 1) as nat);
        reveal_strlit(" ");
        reveal_strlit(".");
        assert(escape_free(glyph_span(cells[n - 1]).text));
    }
}

/// No piece of a row holds an escape character, so painting shows every piece of
/// it as its text, bare or in its colour.
pub proof fn lemma_row_escape_free(
    base: u64,
    cells: Seq<Option<u8>>,
    mode: VisuMode,
    left: nat,
    right: nat,
)
    requires
        cells.len() == 16,
    ensures
        all_escape_free(row_spans(base, cells, mode, left, right)),
{
    reveal_strlit("│");
    reveal_strlit("│ ");
    reveal_strlit(" │");
    lemma_blanks_escape_free(left);
    lemma_blanks_escape_free(right);
    lemma_padded_escape_free(base as nat, left + right);
    lemma_hex_column_escape_free(cells, mode, 16);
    lemma_text_column_escape_free(cells, 16);
}

} // verus!
