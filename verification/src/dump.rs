//! A loaded file with the range of it that is dumped, and the rows of the dump.

use crate::args::{text_view, Cli};
use crate::range::{resolution, resolve, Diagnostic, DiagnosticView, ResolvedRange};
use crate::text::{
    decimal_string, decimal_text, hex_digits, hex_text, hex_width, padded_hex_string, zero_padded,
};
use vstd::prelude::*;

verus! {

/// Which selectors the range was resolved from.
#[derive(Debug, Clone, Copy, PartialEq, Eq)]
pub enum AddrMode {
    /// None of them.
    Default,
    /// The start address alone.
    S,
    /// Start address and count.
    SN,
    /// Start and end address.
    SE,
    /// Count and end address.
    NE,
    /// The count alone.
    N,
    /// The end address alone.
    E,
}

/// Which bytes of the dump are highlighted.
#[derive(Debug, Clone, Copy, PartialEq, Eq)]
pub enum VisuMode {
    /// None.
    Default,
    /// Graphic ASCII and the space in one colour, all others in another.
    AsciiGraphic,
    /// Bytes of value zero.
    HighlightZeros,
    /// Bytes of value 0x80 and above.
    HighBytes,
    /// ASCII control characters.
    ControlChars,
}

/// The address mode that stands for the selectors that are present.
pub open spec fn addr_mode_of(start: Option<u64>, count: Option<u64>, end: Option<u64>) -> AddrMode {
    match (start, count, end) {
        (Some(_), None, None) => AddrMode::S,
        (Some(_), Some(_), None) => AddrMode::SN,
        (Some(_), None, Some(_)) => AddrMode::SE,
        (None, Some(_), Some(_)) => AddrMode::NE,
        (None, Some(_), None) => AddrMode::N,
        (None, None, Some(_)) => AddrMode::E,
        _ => AddrMode::Default,
    }
}

/// What std's `str::to_lowercase` gives for `text`.
pub uninterp spec fn lowercase_text(text: Seq<char>) -> Seq<char>;

/// Calls `str::to_lowercase`. The result depends on the text alone; the contract
/// gives it its name.
#[verifier::external_body]
fn lowercase(text: &str) -> (r: String)
    ensures
        r@ == lowercase_text(text@),
{
    text.to_lowercase()
}

/// The mode that a token in lower case names, if it names one.
pub open spec fn mode_named(lowered: Seq<char>) -> Option<VisuMode> {
    if lowered == "ascii"@ {
        Some(VisuMode::AsciiGraphic)
    } else if lowered == "zeros"@ {
        Some(VisuMode::HighlightZeros)
    } else if lowered == "high"@ {
        Some(VisuMode::HighBytes)
    } else if lowered == "control"@ {
        Some(VisuMode::ControlChars)
    } else {
        None
    }
}

/// The mode that a token names, upper and lower case not told apart.
pub open spec fn mode_of_token(token: Seq<char>) -> Option<VisuMode> {
    match mode_named(token) {
        Some(mode) => Some(mode),
        None => mode_named(lowercase_text(token)),
    }
}

fn same_text(a: &String, b: &str) -> (r: bool)
    ensures
        r == (a@ == b@),
{
    let other = String::from_str(b);
    *a == other
}

impl VisuMode {
    /// The mode that `lowered` names: `ascii`, `zeros`, `high` or `control`, in
    /// lower case and nothing else.
    pub fn from_token(lowered: &str) -> (r: Option<VisuMode>)
        ensures
            r == mode_named(lowered@),
    {
        let token = String::from_str(lowered);
        if same_text(&token, "ascii") {
            Some(VisuMode::AsciiGraphic)
        } else if same_text(&token, "zeros") {
            Some(VisuMode::HighlightZeros)
        } else if same_text(&token, "high") {
            Some(VisuMode::HighBytes)
        } else if same_text(&token, "control") {
            Some(VisuMode::ControlChars)
        } else {
            None
        }
    }

    /// The mode that `token` names, upper and lower case not told apart: the mode
    /// it names as it stands, or else the mode it names once put in lower case.
    pub fn parse(token: &str) -> (r: Option<VisuMode>)
        ensures
            r == mode_of_token(token@),
    {
        match VisuMode::from_token(token) {
            Some(mode) => Some(mode),
            None => {
                let lowered = lowercase(token);
                VisuMode::from_token(lowered.as_str())
            },
        }
    }
}

/// The first size that has more than 53 significant bits.
pub const EXACT_LIMIT: u64 = 0x20_0000_0000_0000;

/// The distance between neighbouring numbers of 53 significant bits around `n`:
/// one below the limit, and doubled with every bit that `n` has more.
pub open spec fn step_of(n: nat) -> nat
    decreases n,
{
    if n < EXACT_LIMIT {
        1
    } else {
        2 * step_of(n / 2)
    }
}

/// `n` rounded to a multiple of `step`, a tie to the even multiple.
pub open spec fn rounded_to(n: nat, step: nat) -> nat {
    let q = n / step;
    let r = n % step;
    if 2 * r > step || (2 * r == step && q % 2 == 1) {
        (q + 1) * step
    } else {
        q * step
    }
}

/// The size as it enters the division by the unit. The quotient is held with 53
/// significant bits, so a size that has more is first rounded to the nearest
/// number that has no more, a tie to the even one; smaller sizes enter as they are.
pub open spec fn measured(filesize: nat) -> nat {
    rounded_to(filesize, step_of(filesize))
}

/// A size of at most 53 significant bits enters the division unchanged.
pub proof fn lemma_small_sizes_are_exact(filesize: nat)
    requires
        filesize < EXACT_LIMIT,
    ensures
        measured(filesize) == filesize,
{
    assert(step_of(filesize) == 1);
    assert(filesize * 1 == filesize) by (nonlinear_arith);
}

/// The measured size in tenths of `unit`, rounded to the nearest tenth, a tie to
/// the even one.
pub open spec fn rounded_tenths(filesize: nat, unit: nat) -> nat {
    rounded_to(measured(filesize) * 10, unit) / unit
}

/// The unit a size is shown in: its number of bytes.
pub open spec fn unit_of(filesize: u64) -> nat {
    if filesize < 1024 {
        1
    } else if filesize < 1024 * 1024 {
        1024
    } else if filesize < 1024 * 1024 * 1024 {
        1024 * 1024
    } else {
        1024 * 1024 * 1024
    }
}

/// The name of the unit a size is shown in.
pub open spec fn unit_name(filesize: u64) -> Seq<char> {
    if filesize < 1024 {
        "bytes"@
    } else if filesize < 1024 * 1024 {
        "kB"@
    } else if filesize < 1024 * 1024 * 1024 {
        "MB"@
    } else {
        "GB"@
    }
}

/// The address of the last byte, as wide as addresses of this file are shown.
pub open spec fn eof_text(filesize: u64) -> Seq<char> {
    zero_padded(hex_text((filesize - 1) as nat), hex_width((filesize - 1) as nat))
}

/// A file size for people: under 1024 bytes the bytes alone, above that the size
/// in kB, MB or GB with one decimal and then the bytes; the address of the last
/// byte closes it.
pub open spec fn filesize_text(filesize: u64) -> Seq<char> {
    if filesize < 1024 {
        decimal_text(filesize as nat) + " bytes (EOF: "@ + eof_text(filesize) + ")"@
    } else {
        let tenths = rounded_tenths(filesize as nat, unit_of(filesize));
        decimal_text(tenths / 10) + "."@ + decimal_text(tenths % 10) + " "@ + unit_name(filesize)
            + " ("@ + decimal_text(filesize as nat) + " bytes, EOF: "@ + eof_text(filesize) + ")"@
    }
}

/// The line that says which range is dumped, addresses as wide as the end address needs.
pub open spec fn range_text(range: ResolvedRange) -> Seq<char> {
    let width = hex_width(range.end_addr as nat);
    "Dumping "@ + decimal_text(range.num_bytes as nat) + " bytes from "@ + zero_padded(
        hex_text(range.start_addr as nat),
        width,
    ) + " to "@ + zero_padded(hex_text(range.end_addr as nat), width)
}

fn step_for(n: u64) -> (step: u64)
    ensures
        step == step_of(n as nat),
        1 <= step,
        step * 0x10_0000_0000_0000 <= n || step == 1,
    decreases n,
{
    if n < EXACT_LIMIT {
        1
    } else {
        let half: u64 = step_for(n / 2);
        2 * half
    }
}

fn round_to(n: u128, step: u128) -> (r: u128)
    requires
        step >= 1,
        n + step <= u128::MAX,
    ensures
        r == rounded_to(n as nat, step as nat),
        r <= n + step,
{
    let q: u128 = n / step;
    let rest: u128 = n % step;
    proof {
        assert(q * step + rest == n && rest < step) by (nonlinear_arith)
            requires
                q == n / step,
                rest == n % step,
                step >= 1,
        ;
        assert((q + 1) * step == q * step + step) by (nonlinear_arith);
    }
    if rest > step - rest || (rest == step - rest && q % 2 == 1) {
        (q + 1) * step
    } else {
        q * step
    }
}

fn tenths(filesize: u64, unit: u128) -> (t: u128)
    requires
        unit == 1024 || unit == 1024 * 1024 || unit == 1024 * 1024 * 1024,
    ensures
        t == rounded_tenths(filesize as nat, unit as nat),
{
    let step = step_for(filesize);
    let size: u128 = round_to(filesize as u128, step as u128);
    let scaled: u128 = round_to(size * 10, unit);
    scaled / unit
}

/// The content of a loaded file and of what is dumped of it.
pub struct DumpView {
    pub data: Seq<u8>,
    pub range: ResolvedRange,
    pub addr_mode: AddrMode,
    pub visu_mode: VisuMode,
}

/// A loaded file, the range of it that is dumped, and the highlighting.
pub struct Dump {
    data: Vec<u8>,
    filesize: u64,
    file_max_index: u64,
    start_addr: u64,
    end_addr: u64,
    num_bytes: u64,
    addr_mode: AddrMode,
    visu_mode: VisuMode,
}

/// The file has no bytes, so there is nothing to dump.
#[derive(Debug, Clone, Copy, PartialEq, Eq)]
pub struct EmptyFile;

/// One row of the dump: sixteen cells from a base address that is a multiple of
/// sixteen. A cell outside the dumped range holds nothing.
#[derive(Debug, Clone, PartialEq, Eq)]
pub struct Row {
    pub base: u64,
    pub cells: Vec<Option<u8>>,
}

/// The byte shown at `addr`: the file's byte there if the address is in the range.
pub open spec fn cell_at(d: DumpView, addr: int) -> Option<u8> {
    if d.range.start_addr <= addr <= d.range.end_addr {
        Some(d.data[addr])
    } else {
        None
    }
}

/// The dump after the arguments were applied to it, or why they cannot be: the
/// range is what the selectors resolve to, the mode what the token names without
/// regard to case. A range that cannot be resolved is reported before a token that
/// names no mode.
pub open spec fn checked(
    before: DumpView,
    start: Option<u64>,
    count: Option<u64>,
    end: Option<u64>,
    visualization: Option<Seq<char>>,
) -> Result<DumpView, DiagnosticView> {
    match resolution(before.data.len() as u64, start, count, end) {
        Err(d) => Err(d),
        Ok(range) => match visualization {
            None => Ok(
                DumpView {
                    data: before.data,
                    range,
                    addr_mode: addr_mode_of(start, count, end),
                    visu_mode: before.visu_mode,
                },
            ),
            Some(token) => match mode_of_token(token) {
                Some(mode) => Ok(
                    DumpView {
                        data: before.data,
                        range,
                        addr_mode: addr_mode_of(start, count, end),
                        visu_mode: mode,
                    },
                ),
                None => Err(DiagnosticView::UnknownVisualization(token)),
            },
        },
    }
}

fn addr_mode_for(start: Option<u64>, count: Option<u64>, end: Option<u64>) -> (m: AddrMode)
    ensures
        m == addr_mode_of(start, count, end),
{
    match (start, count, end) {
        (Some(_), None, None) => AddrMode::S,
        (Some(_), Some(_), None) => AddrMode::SN,
        (Some(_), None, Some(_)) => AddrMode::SE,
        (None, Some(_), Some(_)) => AddrMode::NE,
        (None, Some(_), None) => AddrMode::N,
        (None, None, Some(_)) => AddrMode::E,
        _ => AddrMode::Default,
    }
}

impl EmptyFile {
    /// The message for a file without bytes.
    pub fn message(&self) -> (s: String)
        ensures
            s@ == "Error: Cannot dump file with 0 bytes"@,
    {
        String::from_str("Error: Cannot dump file with 0 bytes")
    }
}

impl View for Dump {
    type V = DumpView;

    closed spec fn view(&self) -> DumpView {
        DumpView {
            data: self.data@,
            range: ResolvedRange {
                start_addr: self.start_addr,
                end_addr: self.end_addr,
                num_bytes: self.num_bytes,
            },
            addr_mode: self.addr_mode,
            visu_mode: self.visu_mode,
        }
    }
}

impl Dump {
    /// The size fields agree with the data.
    pub closed spec fn consistent(&self) -> bool {
        &&& self.filesize == self.data@.len()
        &&& self.file_max_index == self.filesize - 1
    }

    /// The file is not empty and the range lies inside it.
    pub open spec fn wf(&self) -> bool {
        &&& self.consistent()
        &&& 1 <= self@.data.len() <= u64::MAX
        &&& self@.range.wf(self@.data.len() as u64)
    }

    /// Takes the content of a file. A file with bytes gives a dump of all of it, no
    /// byte highlighted; an empty file gives none.
    pub fn new(data: Vec<u8>) -> (r: Result<Dump, EmptyFile>)
        ensures
            r is Err <==> data@.len() == 0,
            r matches Ok(dump) ==> dump.wf() && dump@ == (DumpView {
                data: data@,
                range: ResolvedRange {
                    start_addr: 0,
                    end_addr: (data@.len() - 1) as u64,
                    num_bytes: data@.len() as u64,
                },
                addr_mode: AddrMode::Default,
                visu_mode: VisuMode::Default,
            }),
    {
        if data.len() == 0 {
            return Err(EmptyFile);
        }
        let filesize: u64 = data.len() as u64;
        let file_max_index: u64 = filesize - 1;
        Ok(
            Dump {
                data,
                filesize,
                file_max_index,
                start_addr: 0,
                end_addr: file_max_index,
                num_bytes: filesize,
                addr_mode: AddrMode::Default,
                visu_mode: VisuMode::Default,
            },
        )
    }

    /// Applies the arguments: resolves the selectors against the file's size and
    /// reads the visualization token. On success the dump holds the resolved range
    /// and the mode; on failure it is left as it was.
    pub fn check_args(&mut self, args: &Cli) -> (r: Result<(), Diagnostic>)
        requires
            old(self).wf(),
        ensures
            final(self).wf(),
            match r {
                Ok(_) => checked(
                    old(self)@,
                    args.start,
                    args.num_bytes,
                    args.end,
                    text_view(args.visualization),
                ) == Ok::<DumpView, DiagnosticView>(final(self)@),
                Err(d) => checked(
                    old(self)@,
                    args.start,
                    args.num_bytes,
                    args.end,
                    text_view(args.visualization),
                ) == Err::<DumpView, DiagnosticView>(d@) && final(self)@ == old(self)@,
            },
    {
        let range = match resolve(self.filesize, args.start, args.num_bytes, args.end) {
            Ok(range) => range,
            Err(d) => {
                return Err(d);
            },
        };
        let visu_mode = match &args.visualization {
            None => self.visu_mode,
            Some(token) => match VisuMode::parse(token.as_str()) {
                Some(mode) => mode,
                None => {
                    return Err(Diagnostic::UnknownVisualization(token.clone()));
                },
            },
        };
        self.start_addr = range.start_addr;
        self.end_addr = range.end_addr;
        self.num_bytes = range.num_bytes;
        self.addr_mode = addr_mode_for(args.start, args.num_bytes, args.end);
        self.visu_mode = visu_mode;
        Ok(())
    }

    /// The width of the address column for addresses up to `max_num`: as many
    /// hexadecimal digits as `max_num` has, and at least four.
    pub fn calc_hex_width(max_num: u64) -> (width: usize)
        ensures
            width == hex_width(max_num as nat),
            4 <= width <= 16,
    {
        let digits = hex_digits(max_num);
        if digits < 4 {
            4
        } else {
            digits
        }
    }

    /// The file's size for people, with the address of its last byte.
    pub fn format_filesize(filesize: u64) -> (s: String)
        requires
            filesize >= 1,
        ensures
            s@ == filesize_text(filesize),
    {
        let width = Self::calc_hex_width(filesize - 1);
        let eof = padded_hex_string(filesize - 1, width);
        let bytes = decimal_string(filesize as u128);
        if filesize < 1024 {
            let mut s = bytes;
            s.append(" bytes (EOF: ");
            s.append(eof.as_str());
            s.append(")");
            s
        } else {
            let unit: u128 = if filesize < 1024 * 1024 {
                1024
            } else if filesize < 1024 * 1024 * 1024 {
                1024 * 1024
            } else {
                1024 * 1024 * 1024
            };
            let name = if filesize < 1024 * 1024 {
                "kB"
            } else if filesize < 1024 * 1024 * 1024 {
                "MB"
            } else {
                "GB"
            };
            let t = tenths(filesize, unit);
            let mut s = decimal_string(t / 10);
            s.append(".");
            s.append(decimal_string(t % 10).as_str());
            s.append(" ");
            s.append(name);
            s.append(" (");
            s.append(bytes.as_str());
            s.append(" bytes, EOF: ");
            s.append(eof.as_str());
            s.append(")");
            s
        }
    }

    /// The number of bytes of the file.
    pub fn filesize(&self) -> (n: u64)
        requires
            self.wf(),
        ensures
            n == self@.data.len(),
    {
        self.filesize
    }

    /// The range that is dumped.
    pub fn range(&self) -> (range: ResolvedRange)
        ensures
            range == self@.range,
    {
        ResolvedRange {
            start_addr: self.start_addr,
            end_addr: self.end_addr,
            num_bytes: self.num_bytes,
        }
    }

    /// The highlighting in force.
    pub fn visu_mode(&self) -> (mode: VisuMode)
        ensures
            mode == self@.visu_mode,
    {
        self.visu_mode
    }

    /// Which selectors the range came from.
    pub fn addr_mode(&self) -> (mode: AddrMode)
        ensures
            mode == self@.addr_mode,
    {
        self.addr_mode
    }

    /// The line that says which range is dumped.
    pub fn range_line(&self) -> (s: String)
        ensures
            s@ == range_text(self@.range),
    {
        let width = Self::calc_hex_width(self.end_addr);
        let mut s = String::from_str("Dumping ");
        s.append(decimal_string(self.num_bytes as u128).as_str());
        s.append(" bytes from ");
        s.append(padded_hex_string(self.start_addr, width).as_str());
        s.append(" to ");
        s.append(padded_hex_string(self.end_addr, width).as_str());
        s
    }

    /// The blanks on the left and on the right of a base address in its column:
    /// half the address width each, the odd one on the right.
    pub fn base_padding(&self) -> (padding: (usize, usize))
        ensures
            padding.0 == hex_width(self@.range.end_addr as nat) / 2,
            padding.0 + padding.1 == hex_width(self@.range.end_addr as nat),
            4 <= padding.0 + padding.1 <= 16,
    {
        let width = Self::calc_hex_width(self.end_addr);
        let left = width / 2;
        (left, width - left)
    }

    /// The first and the last row of the dump: the rows that hold the start and the
    /// end address.
    pub fn row_span(&self) -> (span: (u64, u64))
        requires
            self.wf(),
        ensures
            span.0 == self@.range.start_addr / 16,
            span.1 == self@.range.end_addr / 16,
            span.0 <= span.1,
    {
        (self.start_addr / 16, self.end_addr / 16)
    }

    /// Row number `line` of the file: sixteen cells from address `16 * line`, each
    /// with the file's byte where its address lies in the dumped range.
    pub fn row(&self, line: u64) -> (row: Row)
        requires
            self.wf(),
            line <= self@.range.end_addr / 16,
        ensures
            row.base == 16 * line,
            row.cells@.len() == 16,
            forall|i: int| 0 <= i < 16 ==> #[trigger] row.cells@[i] == cell_at(self@, row.base + i),
    {
        let base: u64 = line * 16;
        let mut cells: Vec<Option<u8>> = Vec::new();
        let mut i: u64 = 0;
        while i < 16
            invariant
                self.wf(),
                base == 16 * line,
                base + 15 <= u64::MAX,
                i <= 16,
                cells@.len() == i,
                forall|k: int| 0 <= k < i ==> #[trigger] cells@[k] == cell_at(self@, base + k),
            decreases 16 - i,
        {
            let addr: u64 = base + i;
            let len: usize = self.data.len();
            let cell = if self.start_addr <= addr && addr <= self.end_addr {
                assert(addr < len);
                Some(self.data[addr as usize])
            } else {
                None
            };
            cells.push(cell);
            i = i + 1;
        }
        Row { base, cells }
    }
}

} // verus!
