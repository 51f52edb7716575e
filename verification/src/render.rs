//! The dump as lines of tinted pieces of text, ready to be printed one after another.

use crate::dump::{cell_at, Dump, DumpView, Row, VisuMode};
use crate::text::{hex_text, hex_width, padded_hex_string, zero_padded};
use vstd::prelude::*;

verus! {

/// The colour a piece of the dump is shown in.
#[derive(Debug, Clone, Copy, PartialEq, Eq)]
pub enum Tint {
    /// The terminal's own colour.
    Plain,
    /// The grey of the frame.
    Frame,
    /// The dark grey of placeholders.
    Dark,
    Cyan,
    Yellow,
    BrightGreen,
    BrightRed,
    BrightMagenta,
    BrightBlue,
}

/// A graphic ASCII character: one that is visible when printed.
pub open spec fn is_graphic(byte: u8) -> bool {
    0x21 <= byte <= 0x7e
}

/// An ASCII control character.
pub open spec fn is_control(byte: u8) -> bool {
    byte < 0x20 || byte == 0x7f
}

/// The colour of `byte` under `mode`.
pub open spec fn tint_of(byte: u8, mode: VisuMode) -> Tint {
    match mode {
        VisuMode::Default => Tint::Plain,
        VisuMode::AsciiGraphic => if is_graphic(byte) || byte == 0x20 {
            Tint::BrightGreen
        } else {
            Tint::BrightRed
        },
        VisuMode::HighlightZeros => if byte == 0 {
            Tint::BrightMagenta
        } else {
            Tint::Plain
        },
        VisuMode::HighBytes => if byte >= 0x80 {
            Tint::BrightBlue
        } else {
            Tint::Plain
        },
        VisuMode::ControlChars => if is_control(byte) {
            Tint::Yellow
        } else {
            Tint::Plain
        },
    }
}

/// The character that stands for `byte` in the text column, if it has one of its own.
pub open spec fn glyph_of(byte: u8) -> Option<char> {
    if is_graphic(byte) || byte == 0x20 {
        Some(byte as char)
    } else {
        None
    }
}

/// Picks the colour of a byte's cell: the mode says which bytes stand out.
pub fn byte_tint(byte: u8, mode: VisuMode) -> (tint: Tint)
    ensures
        tint == tint_of(byte, mode),
{
    match mode {
        VisuMode::Default => Tint::Plain,
        VisuMode::AsciiGraphic => {
            if (0x21 <= byte && byte <= 0x7e) || byte == 0x20 {
                Tint::BrightGreen
            } else {
                Tint::BrightRed
            }
        },
        VisuMode::HighlightZeros => {
            if byte == 0 {
                Tint::BrightMagenta
            } else {
                Tint::Plain
            }
        },
        VisuMode::HighBytes => {
            if byte >= 0x80 {
                Tint::BrightBlue
            } else {
                Tint::Plain
            }
        },
        VisuMode::ControlChars => {
            if byte < 0x20 || byte == 0x7f {
                Tint::Yellow
            } else {
                Tint::Plain
            }
        },
    }
}

/// The two upper-case hexadecimal digits of a byte.
pub fn byte_hex(byte: u8) -> (s: String)
    ensures
        s@ == zero_padded(hex_text(byte as nat), 2),
{
    padded_hex_string(byte as u64, 2)
}

/// The character shown for a byte in the text column: the byte itself where it is
/// a graphic ASCII character or a space, none where a placeholder is shown.
pub fn ascii_glyph(byte: u8) -> (glyph: Option<char>)
    ensures
        glyph == glyph_of(byte),
{
    if (0x21 <= byte && byte <= 0x7e) || byte == 0x20 {
        Some(byte as char)
    } else {
        None
    }
}

/// `piece` written `n` times.
pub open spec fn repeated(piece: Seq<char>, n: nat) -> Seq<char>
    decreases n,
{
    if n == 0 {
        Seq::empty()
    } else {
        repeated(piece, (n - 1) as nat) + piece
    }
}

/// `piece` written `n` times.
pub fn repeat_str(piece: &str, n: usize) -> (s: String)
    ensures
        s@ == repeated(piece@, n as nat),
{
    let mut s = String::new();
    let mut i: usize = 0;
    while i < n
        invariant
            i <= n,
            s@ == repeated(piece@, i as nat),
        decreases n - i,
    {
        s.append(piece);
        i = i + 1;
    }
    s
}

/// A piece of text in one colour.
#[derive(Debug, Clone, PartialEq, Eq)]
pub struct Span {
    pub tint: Tint,
    pub text: String,
}

/// The mathematical content of a [`Span`].
pub struct SpanView {
    pub tint: Tint,
    pub text: Seq<char>,
}

impl View for Span {
    type V = SpanView;

    open spec fn view(&self) -> SpanView {
        SpanView { tint: self.tint, text: self.text@ }
    }
}

/// Which horizontal rule of the frame: above the title, below it, or below the rows.
#[derive(Debug, Clone, Copy, PartialEq, Eq)]
pub enum Rule {
    Top,
    Middle,
    Bottom,
}

/// The views of `spans`, in order.
pub open spec fn spans_view(spans: Seq<Span>) -> Seq<SpanView> {
    Seq::new(spans.len(), |i: int| spans[i]@)
}

/// The piece `text` in `tint`.
pub open spec fn span(tint: Tint, text: Seq<char>) -> SpanView {
    SpanView { tint, text }
}

/// `n` single strokes of the frame.
pub open spec fn strokes(n: nat) -> Seq<SpanView>
    decreases n,
{
    if n == 0 {
        Seq::empty()
    } else {
        strokes((n - 1) as nat).push(span(Tint::Frame, "─"@))
    }
}

/// The corner that a rule begins with.
pub open spec fn rule_corner(rule: Rule) -> Seq<char> {
    match rule {
        Rule::Top => "┌"@,
        Rule::Middle => "├"@,
        Rule::Bottom => "└"@,
    }
}

/// What a rule draws over the two byte columns and the text column.
pub open spec fn rule_rest(rule: Rule) -> Seq<char> {
    match rule {
        Rule::Top => "┬────────────────────────────────┬────────────────────────────────┬──────────────────┐"@,
        Rule::Middle => "┼────────────────────────────────┼────────────────────────────────┼──────────────────┤"@,
        Rule::Bottom => "┴────────────────────────────────┴────────────────────────────────┴──────────────────┘"@,
    }
}

/// A horizontal rule: the corner, the stroke over the address column with its
/// padding of `left` and `right` on the two sides, and the rest, all in the
/// frame's colour.
pub open spec fn rule_spans(rule: Rule, left: nat, right: nat) -> Seq<SpanView> {
    seq![span(Tint::Frame, rule_corner(rule))] + strokes(left) + seq![
        span(Tint::Frame, "────"@),
    ] + strokes(right) + seq![span(Tint::Frame, rule_rest(rule))]
}

/// What follows column `i` in the title line: the frame after the eighth column,
/// nothing after the last, a blank after the others.
pub open spec fn title_gap(i: int) -> Seq<SpanView> {
    if i == 7 {
        seq![span(Tint::Frame, "│"@), span(Tint::Plain, " "@)]
    } else if i != 15 {
        seq![span(Tint::Plain, " "@)]
    } else {
        Seq::empty()
    }
}

/// The numbers of the first `n` columns in the title line.
pub open spec fn index_spans(n: nat) -> Seq<SpanView>
    decreases n,
{
    if n == 0 {
        Seq::empty()
    } else {
        index_spans((n - 1) as nat) + seq![
            span(Tint::Cyan, zero_padded(hex_text((n - 1) as nat), 2) + " "@),
        ] + title_gap(n - 1)
    }
}

/// The title line: the address column's title, the sixteen column numbers, and
/// the title of the text column.
pub open spec fn title_spans(left: nat, right: nat) -> Seq<SpanView> {
    seq![
        span(Tint::Frame, "│"@),
        span(Tint::Plain, repeated(" "@, left)),
        span(Tint::Plain, "BASE"@),
        span(Tint::Plain, repeated(" "@, right)),
        span(Tint::Frame, "│ "@),
    ] + index_spans(16) + seq![
        span(Tint::Frame, "│"@),
        span(Tint::Plain, "      ASCII       "@),
        span(Tint::Frame, "│"@),
    ]
}

/// A cell of the byte columns: the byte's two digits in its colour and a blank,
/// or three blanks where the cell is outside the range.
pub open spec fn hex_cell_spans(cell: Option<u8>, mode: VisuMode) -> Seq<SpanView> {
    match cell {
        None => seq![span(Tint::Plain, "   "@)],
        Some(byte) => seq![
            span(tint_of(byte, mode), zero_padded(hex_text(byte as nat), 2)),
            span(Tint::Plain, " "@),
        ],
    }
}

/// What follows cell `i` of a row: the frame after the eighth cell, nothing after
/// the last, a blank after the others.
pub open spec fn row_gap(i: int) -> Seq<SpanView> {
    if i == 7 {
        seq![span(Tint::Frame, "│ "@)]
    } else if i != 15 {
        seq![span(Tint::Plain, " "@)]
    } else {
        Seq::empty()
    }
}

/// The first `n` cells of the byte columns.
pub open spec fn hex_column(cells: Seq<Option<u8>>, mode: VisuMode, n: nat) -> Seq<SpanView>
    decreases n,
{
    if n == 0 {
        Seq::empty()
    } else {
        hex_column(cells, mode, (n - 1) as nat) + hex_cell_spans(cells[n - 1], mode) + row_gap(
            n - 1,
        )
    }
}

/// A cell of the text column: the byte's character, a dark dot where it has none,
/// a blank where the cell is outside the range.
pub open spec fn glyph_span(cell: Option<u8>) -> SpanView {
    match cell {
        None => span(Tint::Plain, " "@),
        Some(byte) => match glyph_of(byte) {
            Some(c) => span(Tint::Plain, seq![c]),
            None => span(Tint::Dark, "."@),
        },
    }
}

/// The first `n` cells of the text column.
pub open spec fn text_column(cells: Seq<Option<u8>>, n: nat) -> Seq<SpanView>
    decreases n,
{
    if n == 0 {
        Seq::empty()
    } else {
        text_column(cells, (n - 1) as nat).push(glyph_span(cells[n - 1]))
    }
}

/// One row of the dump: the base address in its padded column, the sixteen byte
/// cells in two groups of eight, and the sixteen characters.
pub open spec fn row_spans(
    base: u64,
    cells: Seq<Option<u8>>,
    mode: VisuMode,
    left: nat,
    right: nat,
) -> Seq<SpanView> {
    seq![
        span(Tint::Frame, "│"@),
        span(Tint::Plain, repeated(" "@, left)),
        span(Tint::Yellow, zero_padded(hex_text(base as nat), left + right)),
        span(Tint::Plain, repeated(" "@, right)),
        span(Tint::Frame, "│ "@),
    ] + hex_column(cells, mode, 16) + seq![span(Tint::Frame, "│ "@)] + text_column(cells, 16)
        + seq![span(Tint::Frame, " │"@)]
}

/// The sixteen cells of row `line` of a dump.
pub open spec fn row_cells(d: DumpView, line: u64) -> Seq<Option<u8>> {
    Seq::new(16, |i: int| cell_at(d, 16 * line + i))
}

/// Row `line` of a dump as it is shown, the address column as wide as the end
/// address needs and the address in the middle of it.
pub open spec fn dump_row_spans(d: DumpView, line: u64) -> Seq<SpanView> {
    let width = hex_width(d.range.end_addr as nat);
    row_spans(
        (16 * line) as u64,
        row_cells(d, line),
        d.visu_mode,
        width / 2,
        (width - width / 2) as nat,
    )
}

/// Calls `char::to_string`: the text that holds the one character.
#[verifier::external_body]
fn char_string(c: char) -> (s: String)
    ensures
        s@ == seq![c],
{
    c.to_string()
}

fn put(spans: &mut Vec<Span>, tint: Tint, text: String)
    ensures
        spans_view(final(spans)@) == spans_view(old(spans)@).push(span(tint, text@)),
{
    let ghost shown = span(tint, text@);
    spans.push(Span { tint, text });
    proof {
        assert(spans_view(spans@) =~= spans_view(old(spans)@).push(shown));
    }
}

fn put_str(spans: &mut Vec<Span>, tint: Tint, text: &str)
    ensures
        spans_view(final(spans)@) == spans_view(old(spans)@).push(span(tint, text@)),
{
    put(spans, tint, String::from_str(text));
}

fn put_strokes(spans: &mut Vec<Span>, n: usize)
    ensures
        spans_view(final(spans)@) == spans_view(old(spans)@) + strokes(n as nat),
{
    let mut i: usize = 0;
    proof {
        assert(spans_view(spans@) =~= spans_view(old(spans)@) + strokes(0));
    }
    while i < n
        invariant
            i <= n,
            spans_view(spans@) == spans_view(old(spans)@) + strokes(i as nat),
        decreases n - i,
    {
        put_str(spans, Tint::Frame, "─");
        i = i + 1;
        proof {
            assert(spans_view(spans@) =~= spans_view(old(spans)@) + strokes(i as nat));
        }
    }
}

/// A horizontal rule of the frame for an address column padded by `left` and `right`.
pub fn rule_line(rule: Rule, left: usize, right: usize) -> (spans: Vec<Span>)
    ensures
        spans_view(spans@) == rule_spans(rule, left as nat, right as nat),
{
    let mut spans: Vec<Span> = Vec::new();
    let (corner, rest) = match rule {
        Rule::Top => (
            "┌",
            "┬────────────────────────────────┬────────────────────────────────┬──────────────────┐",
        ),
        Rule::Middle => (
            "├",
            "┼────────────────────────────────┼────────────────────────────────┼──────────────────┤",
        ),
        Rule::Bottom => (
            "└",
            "┴────────────────────────────────┴────────────────────────────────┴──────────────────┘",
        ),
    };
    put_str(&mut spans, Tint::Frame, corner);
    put_strokes(&mut spans, left);
    put_str(&mut spans, Tint::Frame, "────");
    put_strokes(&mut spans, right);
    put_str(&mut spans, Tint::Frame, rest);
    proof {
        assert(spans_view(spans@) =~= rule_spans(rule, left as nat, right as nat));
    }
    spans
}

fn put_title_gap(spans: &mut Vec<Span>, i: u8)
    ensures
        spans_view(final(spans)@) == spans_view(old(spans)@) + title_gap(i as int),
{
    if i == 7 {
        put_str(spans, Tint::Frame, "│");
        put_str(spans, Tint::Plain, " ");
    } else if i != 15 {
        put_str(spans, Tint::Plain, " ");
    }
    proof {
        assert(spans_view(spans@) =~= spans_view(old(spans)@) + title_gap(i as int));
    }
}

fn put_row_gap(spans: &mut Vec<Span>, i: usize)
    ensures
        spans_view(final(spans)@) == spans_view(old(spans)@) + row_gap(i as int),
{
    if i == 7 {
        put_str(spans, Tint::Frame, "│ ");
    } else if i != 15 {
        put_str(spans, Tint::Plain, " ");
    }
    proof {
        assert(spans_view(spans@) =~= spans_view(old(spans)@) + row_gap(i as int));
    }
}

/// The title line of the frame for an address column padded by `left` and `right`.
pub fn title_line(left: usize, right: usize) -> (spans: Vec<Span>)
    ensures
        spans_view(spans@) == title_spans(left as nat, right as nat),
{
    let mut spans: Vec<Span> = Vec::new();
    put_str(&mut spans, Tint::Frame, "│");
    put(&mut spans, Tint::Plain, repeat_str(" ", left));
    put_str(&mut spans, Tint::Plain, "BASE");
    put(&mut spans, Tint::Plain, repeat_str(" ", right));
    put_str(&mut spans, Tint::Frame, "│ ");
    let ghost head = spans_view(spans@);
    let mut i: u8 = 0;
    proof {
        assert(spans_view(spans@) =~= head + index_spans(0));
    }
    while i < 16
        invariant
            i <= 16,
            spans_view(spans@) == head + index_spans(i as nat),
        decreases 16 - i,
    {
        let mut number = byte_hex(i);
        number.append(" ");
        put(&mut spans, Tint::Cyan, number);
        put_title_gap(&mut spans, i);
        i = i + 1;
        proof {
            assert(spans_view(spans@) =~= head + index_spans(i as nat));
        }
    }
    put_str(&mut spans, Tint::Frame, "│");
    put_str(&mut spans, Tint::Plain, "      ASCII       ");
    put_str(&mut spans, Tint::Frame, "│");
    proof {
        assert(spans_view(spans@) =~= title_spans(left as nat, right as nat));
    }
    spans
}

fn put_hex_cell(spans: &mut Vec<Span>, cell: Option<u8>, mode: VisuMode)
    ensures
        spans_view(final(spans)@) == spans_view(old(spans)@) + hex_cell_spans(cell, mode),
{
    match cell {
        None => {
            put_str(spans, Tint::Plain, "   ");
        },
        Some(byte) => {
            put(spans, byte_tint(byte, mode), byte_hex(byte));
            put_str(spans, Tint::Plain, " ");
        },
    }
    proof {
        assert(spans_view(spans@) =~= spans_view(old(spans)@) + hex_cell_spans(cell, mode));
    }
}

fn put_glyph(spans: &mut Vec<Span>, cell: Option<u8>)
    ensures
        spans_view(final(spans)@) == spans_view(old(spans)@).push(glyph_span(cell)),
{
    match cell {
        None => {
            put_str(spans, Tint::Plain, " ");
        },
        Some(byte) => match ascii_glyph(byte) {
            Some(c) => {
                put(spans, Tint::Plain, char_string(c));
            },
            None => {
                put_str(spans, Tint::Dark, ".");
            },
        },
    }
}

/// A row as it is shown: the base address in a column padded by `left` and
/// `right`, the byte cells coloured after `mode`, and the text column.
pub fn row_line(row: &Row, mode: VisuMode, left: usize, right: usize) -> (spans: Vec<Span>)
    requires
        row.cells@.len() == 16,
        left + right <= 16,
    ensures
        spans_view(spans@) == row_spans(row.base, row.cells@, mode, left as nat, right as nat),
{
    let mut spans: Vec<Span> = Vec::new();
    put_str(&mut spans, Tint::Frame, "│");
    put(&mut spans, Tint::Plain, repeat_str(" ", left));
    put(&mut spans, Tint::Yellow, padded_hex_string(row.base, left + right));
    put(&mut spans, Tint::Plain, repeat_str(" ", right));
    put_str(&mut spans, Tint::Frame, "│ ");
    let ghost head = spans_view(spans@);
    let mut i: usize = 0;
    proof {
        assert(spans_view(spans@) =~= head + hex_column(row.cells@, mode, 0));
    }
    while i < 16
        invariant
            i <= 16,
            row.cells@.len() == 16,
            spans_view(spans@) == head + hex_column(row.cells@, mode, i as nat),
        decreases 16 - i,
    {
        put_hex_cell(&mut spans, row.cells[i], mode);
        put_row_gap(&mut spans, i);
        i = i + 1;
        proof {
            assert(spans_view(spans@) =~= head + hex_column(row.cells@, mode, i as nat));
        }
    }
    put_str(&mut spans, Tint::Frame, "│ ");
    let ghost middle = spans_view(spans@);
    let mut k: usize = 0;
    proof {
        assert(spans_view(spans@) =~= middle + text_column(row.cells@, 0));
    }
    while k < 16
        invariant
            k <= 16,
            row.cells@.len() == 16,
            spans_view(spans@) == middle + text_column(row.cells@, k as nat),
        decreases 16 - k,
    {
        put_glyph(&mut spans, row.cells[k]);
        k = k + 1;
        proof {
            assert(spans_view(spans@) =~= middle + text_column(row.cells@, k as nat));
        }
    }
    put_str(&mut spans, Tint::Frame, " │");
    proof {
        assert(spans_view(spans@) =~= row_spans(
            row.base,
            row.cells@,
            mode,
            left as nat,
            right as nat,
        ));
    }
    spans
}

/// Row `line` of the dump as it is shown.
pub fn dump_row_line(dump: &Dump, line: u64) -> (spans: Vec<Span>)
    requires
        dump.wf(),
        line <= dump@.range.end_addr / 16,
    ensures
        spans_view(spans@) == dump_row_spans(dump@, line),
{
    let row = dump.row(line);
    let padding = dump.base_padding();
    proof {
        assert(row.cells@ =~= row_cells(dump@, line));
    }
    row_line(&row, dump.visu_mode(), padding.0, padding.1)
}

/// The texts of `spans`, colours left out.
pub open spec fn texts(spans: Seq<SpanView>) -> Seq<Seq<char>> {
    Seq::new(spans.len(), |i: int| spans[i].text)
}

proof fn lemma_hex_column_texts(cells: Seq<Option<u8>>, a: VisuMode, b: VisuMode, n: nat)
    requires
        n <= cells.len(),
    ensures
        texts(hex_column(cells, a, n)) == texts(hex_column(cells, b, n)),
    decreases n,
{
    if n > 0 {
        let m = (n - 1) as nat;
        lemma_hex_column_texts(cells, a, b, m);
        let gap = texts(row_gap(n - 1));
        assert(texts(hex_cell_spans(cells[n - 1], a)) =~= texts(hex_cell_spans(cells[n - 1], b)));
        assert(texts(hex_column(cells, a, n)) =~= texts(hex_column(cells, a, m)) + texts(
            hex_cell_spans(cells[n - 1], a),
        ) + gap);
        assert(texts(hex_column(cells, b, n)) =~= texts(hex_column(cells, b, m)) + texts(
            hex_cell_spans(cells[n - 1], b),
        ) + gap);
    }
}

/// The visualization mode changes colours only: under any two modes a row is made
/// of the same pieces of text in the same order.
pub proof fn lemma_mode_keeps_text(
    base: u64,
    cells: Seq<Option<u8>>,
    a: VisuMode,
    b: VisuMode,
    left: nat,
    right: nat,
)
    requires
        cells.len() == 16,
    ensures
        texts(row_spans(base, cells, a, left, right)) == texts(
            row_spans(base, cells, b, left, right),
        ),
{
    lemma_hex_column_texts(cells, a, b, 16);
    let head = seq![
        span(Tint::Frame, "│"@),
        span(Tint::Plain, repeated(" "@, left)),
        span(Tint::Yellow, zero_padded(hex_text(base as nat), left + right)),
        span(Tint::Plain, repeated(" "@, right)),
        span(Tint::Frame, "│ "@),
    ];
    let tail = seq![span(Tint::Frame, "│ "@)] + text_column(cells, 16) + seq![
        span(Tint::Frame, " │"@),
    ];
    assert(row_spans(base, cells, a, left, right) =~= head + hex_column(cells, a, 16) + tail);
    assert(row_spans(base, cells, b, left, right) =~= head + hex_column(cells, b, 16) + tail);
    assert(texts(head + hex_column(cells, a, 16) + tail) =~= texts(head) + texts(
        hex_column(cells, a, 16),
    ) + texts(tail));
    assert(texts(head + hex_column(cells, b, 16) + tail) =~= texts(head) + texts(
        hex_column(cells, b, 16),
    ) + texts(tail));
}

} // verus!
