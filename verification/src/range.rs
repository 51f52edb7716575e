//! Resolution of the start, count and end selectors into one byte range of a file.

use vstd::prelude::*;

verus! {

/// A byte range of a file: `num_bytes` bytes from `start_addr` to `end_addr`, both included.
#[derive(Debug, Clone, Copy, PartialEq, Eq)]
pub struct ResolvedRange {
    pub start_addr: u64,
    pub end_addr: u64,
    pub num_bytes: u64,
}

impl ResolvedRange {
    /// The range is not empty, lies inside a file of `filesize` bytes, and its
    /// three numbers agree.
    pub open spec fn wf(&self, filesize: u64) -> bool {
        &&& self.start_addr <= self.end_addr
        &&& self.end_addr < filesize
        &&& self.end_addr == self.start_addr + self.num_bytes - 1
    }
}

/// One condition that a selector, or a value derived from two of them, fails to meet.
#[derive(Debug, Clone, Copy, PartialEq, Eq)]
#[allow(inconsistent_fields)]
pub enum Violation {
    /// The start address lies behind the last byte.
    StartExceedsMaxIndex { start: u64, max_index: u64 },
    /// More bytes are asked for than the file has.
    CountExceedsFilesize { count: u64, filesize: u64 },
    /// Zero bytes are asked for.
    CountIsZero,
    /// The end address lies behind the last byte.
    EndExceedsMaxIndex { end: u64, max_index: u64 },
    /// Start plus count runs past the last byte; `end` is `start + (count - 1)`.
    DerivedEndExceedsMaxIndex { end: u128, max_index: u64 },
    /// End minus count starts behind the last byte; `start` is `end - (count - 1)`.
    DerivedStartExceedsMaxIndex { start: u128, max_index: u64 },
    /// The start address lies behind the end address.
    StartAfterEnd { start: u64, end: u64 },
    /// Counting back from the end address would start before address zero.
    CountExceedsEnd { count: u64, end: u64 },
}

/// What follows the message of a finding.
#[derive(Debug, Clone, Copy, PartialEq, Eq)]
pub enum Advice {
    /// Nothing: the message stands alone.
    Nothing,
    /// An empty line.
    Blank,
    /// Lower the start address into the file.
    ReduceStart,
    /// Lower the count to the file's size.
    ReduceCount,
    /// Lower the count, or leave it out to dump up to the end of the file.
    ReduceCountOrDrop,
    /// Lower the end address into the file.
    ReduceEnd,
    /// Lower the start address to the end address or below.
    StartUpToEnd,
    /// Lower the count to the end address plus one or below.
    CountUpToEnd,
}

/// A violated condition together with what is suggested against it.
#[derive(Debug, Clone, Copy, PartialEq, Eq)]
pub struct Finding {
    pub violation: Violation,
    pub advice: Advice,
}

/// Why no range, or no visualization mode, came out of the arguments.
#[derive(Debug, Clone, PartialEq, Eq)]
pub enum Diagnostic {
    /// The selectors break these conditions, listed in the order they are reported.
    Violations(Vec<Finding>),
    /// Start, count and end were all given.
    InvalidCombination,
    /// The visualization token, as it was given, names no mode.
    UnknownVisualization(String),
}

/// The mathematical content of a [`Diagnostic`].
pub enum DiagnosticView {
    Violations(Seq<Finding>),
    InvalidCombination,
    UnknownVisualization(Seq<char>),
}

impl View for Diagnostic {
    type V = DiagnosticView;

    open spec fn view(&self) -> DiagnosticView {
        match self {
            Diagnostic::Violations(findings) => DiagnosticView::Violations(findings@),
            Diagnostic::InvalidCombination => DiagnosticView::InvalidCombination,
            Diagnostic::UnknownVisualization(token) => DiagnosticView::UnknownVisualization(
                token@,
            ),
        }
    }
}

/// One finding, of `violation` with `advice`, if `broken` holds, and none otherwise.
pub open spec fn when(broken: bool, violation: Violation, advice: Advice) -> Seq<Finding> {
    if broken {
        seq![Finding { violation, advice }]
    } else {
        Seq::empty()
    }
}

/// A start address alone is valid when it lies inside the file.
pub open spec fn start_valid(filesize: u64, s: u64) -> bool {
    s < filesize
}

/// A count alone is valid when it is not zero and the file has that many bytes.
pub open spec fn count_valid(filesize: u64, n: u64) -> bool {
    n <= filesize && n != 0
}

/// An end address alone is valid when it lies inside the file.
pub open spec fn end_valid(filesize: u64, e: u64) -> bool {
    e <= filesize - 1
}

/// Start and count are valid when the start lies inside the file, the count is not
/// zero, and the bytes counted from the start all lie inside the file.
pub open spec fn start_count_valid(filesize: u64, s: u64, n: u64) -> bool {
    &&& s <= filesize - 1
    &&& n <= filesize - s
    &&& s + n <= filesize
    &&& n != 0
}

/// Start and end are valid when both lie inside the file and the start is not behind the end.
pub open spec fn start_end_valid(filesize: u64, s: u64, e: u64) -> bool {
    &&& s <= filesize - 1
    &&& e <= filesize - 1
    &&& s <= e
}

/// The start address that `n` bytes ending at `e` begin at, where there is one:
/// none if it would lie before address zero.
pub open spec fn derived_start(n: u64, e: u64) -> Option<int> {
    if n <= e + 1 {
        Some(e - (n - 1))
    } else {
        None
    }
}

/// Count and end are valid when the end lies inside the file, the count is not zero
/// and not above the file's size, and the derived start exists and lies inside the file.
pub open spec fn count_end_valid(filesize: u64, n: u64, e: u64) -> bool {
    &&& derived_start(n, e) is Some
    &&& e <= filesize - 1
    &&& n <= filesize
    &&& n != 0
    &&& derived_start(n, e)->0 <= filesize - 1
}

/// What is reported of an invalid start address given alone.
pub open spec fn start_findings(filesize: u64, s: u64) -> Seq<Finding> {
    seq![
        Finding {
            violation: Violation::StartExceedsMaxIndex { start: s, max_index: (filesize - 1) as u64 },
            advice: Advice::Nothing,
        },
    ]
}

/// What is reported of an invalid count given alone.
pub open spec fn count_findings(filesize: u64, n: u64) -> Seq<Finding> {
    if n > filesize {
        seq![
            Finding {
                violation: Violation::CountExceedsFilesize { count: n, filesize },
                advice: Advice::Nothing,
            },
        ]
    } else {
        seq![Finding { violation: Violation::CountIsZero, advice: Advice::Nothing }]
    }
}

/// What is reported of an invalid end address given alone.
pub open spec fn end_findings(filesize: u64, e: u64) -> Seq<Finding> {
    seq![
        Finding {
            violation: Violation::EndExceedsMaxIndex { end: e, max_index: (filesize - 1) as u64 },
            advice: Advice::Nothing,
        },
    ]
}

/// What is reported of start and count: one finding for each condition they break.
pub open spec fn start_count_findings(filesize: u64, s: u64, n: u64) -> Seq<Finding> {
    let max_index = (filesize - 1) as u64;
    when(
        s > max_index,
        Violation::StartExceedsMaxIndex { start: s, max_index },
        Advice::ReduceStart,
    ) + when(
        n > filesize,
        Violation::CountExceedsFilesize { count: n, filesize },
        Advice::ReduceCount,
    ) + when(
        s + n > filesize && n != 0,
        Violation::DerivedEndExceedsMaxIndex { end: (s + (n - 1)) as u128, max_index },
        Advice::ReduceCountOrDrop,
    ) + when(n == 0, Violation::CountIsZero, Advice::Blank)
}

/// What is reported of start and end: one finding for each condition they break.
pub open spec fn start_end_findings(filesize: u64, s: u64, e: u64) -> Seq<Finding> {
    let max_index = (filesize - 1) as u64;
    when(
        s > max_index,
        Violation::StartExceedsMaxIndex { start: s, max_index },
        Advice::ReduceStart,
    ) + when(
        e > max_index,
        Violation::EndExceedsMaxIndex { end: e, max_index },
        Advice::ReduceEnd,
    ) + when(s > e, Violation::StartAfterEnd { start: s, end: e }, Advice::StartUpToEnd)
}

/// What is reported of count and end: one finding for each condition they break.
pub open spec fn count_end_findings(filesize: u64, n: u64, e: u64) -> Seq<Finding> {
    let max_index = (filesize - 1) as u64;
    let s = derived_start(n, e);
    when(
        e > max_index,
        Violation::EndExceedsMaxIndex { end: e, max_index },
        Advice::ReduceEnd,
    ) + when(
        n > filesize,
        Violation::CountExceedsFilesize { count: n, filesize },
        Advice::ReduceCount,
    ) + when(n == 0, Violation::CountIsZero, Advice::Blank) + when(
        s is Some && s->0 > max_index,
        Violation::DerivedStartExceedsMaxIndex { start: s->0 as u128, max_index },
        Advice::ReduceEnd,
    ) + when(
        s is None,
        Violation::CountExceedsEnd { count: n, end: e },
        Advice::CountUpToEnd,
    )
}

/// The range from `start` that holds `num_bytes` bytes.
pub open spec fn range_of(start: int, num_bytes: int) -> ResolvedRange {
    ResolvedRange {
        start_addr: start as u64,
        end_addr: (start + num_bytes - 1) as u64,
        num_bytes: num_bytes as u64,
    }
}

/// A valid range, or the violations in place of it.
pub open spec fn range_or(
    valid: bool,
    range: ResolvedRange,
    findings: Seq<Finding>,
) -> Result<ResolvedRange, DiagnosticView> {
    if valid {
        Ok(range)
    } else {
        Err(DiagnosticView::Violations(findings))
    }
}

/// What the selectors resolve to on a file of `filesize` bytes: the range they
/// select, or why they select none.
pub open spec fn resolution(
    filesize: u64,
    start: Option<u64>,
    count: Option<u64>,
    end: Option<u64>,
) -> Result<ResolvedRange, DiagnosticView> {
    match (start, count, end) {
        (None, None, None) => Ok(range_of(0, filesize as int)),
        (Some(s), None, None) => range_or(
            start_valid(filesize, s),
            range_of(s as int, filesize - s),
            start_findings(filesize, s),
        ),
        (None, Some(n), None) => range_or(
            count_valid(filesize, n),
            range_of(0, n as int),
            count_findings(filesize, n),
        ),
        (None, None, Some(e)) => range_or(
            end_valid(filesize, e),
            range_of(0, e + 1),
            end_findings(filesize, e),
        ),
        (Some(s), Some(n), None) => range_or(
            start_count_valid(filesize, s, n),
            range_of(s as int, n as int),
            start_count_findings(filesize, s, n),
        ),
        (Some(s), None, Some(e)) => range_or(
            start_end_valid(filesize, s, e),
            range_of(s as int, e - s + 1),
            start_end_findings(filesize, s, e),
        ),
        (None, Some(n), Some(e)) => range_or(
            count_end_valid(filesize, n, e),
            range_of(e - (n - 1), n as int),
            count_end_findings(filesize, n, e),
        ),
        (Some(_), Some(_), Some(_)) => Err(DiagnosticView::InvalidCombination),
    }
}

/// The mathematical content of what [`resolve`] returns.
pub open spec fn outcome_view(r: Result<ResolvedRange, Diagnostic>) -> Result<
    ResolvedRange,
    DiagnosticView,
> {
    match r {
        Ok(range) => Ok(range),
        Err(d) => Err(d@),
    }
}

fn one_finding(violation: Violation, advice: Advice) -> (d: Diagnostic)
    ensures
        d@ == DiagnosticView::Violations(seq![Finding { violation, advice }]),
{
    let mut findings: Vec<Finding> = Vec::new();
    findings.push(Finding { violation, advice });
    proof {
        assert(findings@ =~= seq![Finding { violation, advice }]);
    }
    Diagnostic::Violations(findings)
}

fn note(findings: &mut Vec<Finding>, broken: bool, violation: Violation, advice: Advice)
    ensures
        final(findings)@ == old(findings)@ + when(broken, violation, advice),
{
    if broken {
        findings.push(Finding { violation, advice });
    }
    proof {
        assert(findings@ =~= old(findings)@ + when(broken, violation, advice));
    }
}

fn resolve_start_count(filesize: u64, s: u64, n: u64) -> (r: Result<ResolvedRange, Diagnostic>)
    requires
        filesize >= 1,
    ensures
        outcome_view(r) == resolution(filesize, Some(s), Some(n), None),
{
    let max_index: u64 = filesize - 1;
    if s <= max_index && n <= filesize - s && n != 0 {
        Ok(ResolvedRange { start_addr: s, end_addr: s + (n - 1), num_bytes: n })
    } else {
        let mut findings: Vec<Finding> = Vec::new();
        note(
            &mut findings,
            s > max_index,
            Violation::StartExceedsMaxIndex { start: s, max_index },
            Advice::ReduceStart,
        );
        note(
            &mut findings,
            n > filesize,
            Violation::CountExceedsFilesize { count: n, filesize },
            Advice::ReduceCount,
        );
        let past_end: bool = n != 0 && s as u128 + n as u128 > filesize as u128;
        let end: u128 = if n != 0 {
            s as u128 + (n as u128 - 1)
        } else {
            0
        };
        note(
            &mut findings,
            past_end,
            Violation::DerivedEndExceedsMaxIndex { end, max_index },
            Advice::ReduceCountOrDrop,
        );
        note(&mut findings, n == 0, Violation::CountIsZero, Advice::Blank);
        proof {
            assert(findings@ =~= start_count_findings(filesize, s, n));
        }
        Err(Diagnostic::Violations(findings))
    }
}

fn resolve_start_end(filesize: u64, s: u64, e: u64) -> (r: Result<ResolvedRange, Diagnostic>)
    requires
        filesize >= 1,
    ensures
        outcome_view(r) == resolution(filesize, Some(s), None, Some(e)),
{
    let max_index: u64 = filesize - 1;
    if s <= max_index && e <= max_index && s <= e {
        Ok(ResolvedRange { start_addr: s, end_addr: e, num_bytes: (e - s) + 1 })
    } else {
        let mut findings: Vec<Finding> = Vec::new();
        note(
            &mut findings,
            s > max_index,
            Violation::StartExceedsMaxIndex { start: s, max_index },
            Advice::ReduceStart,
        );
        note(
            &mut findings,
            e > max_index,
            Violation::EndExceedsMaxIndex { end: e, max_index },
            Advice::ReduceEnd,
        );
        note(&mut findings, s > e, Violation::StartAfterEnd { start: s, end: e }, Advice::StartUpToEnd);
        proof {
            assert(findings@ =~= start_end_findings(filesize, s, e));
        }
        Err(Diagnostic::Violations(findings))
    }
}

fn resolve_count_end(filesize: u64, n: u64, e: u64) -> (r: Result<ResolvedRange, Diagnostic>)
    requires
        filesize >= 1,
    ensures
        outcome_view(r) == resolution(filesize, None, Some(n), Some(e)),
{
    let max_index: u64 = filesize - 1;
    let s_valid: bool = n as u128 <= e as u128 + 1;
    let s: u128 = if s_valid {
        e as u128 + 1 - n as u128
    } else {
        0
    };
    if e <= max_index && n <= filesize && n != 0 && s <= max_index as u128 && s_valid {
        Ok(ResolvedRange { start_addr: e - (n - 1), end_addr: e, num_bytes: n })
    } else {
        let mut findings: Vec<Finding> = Vec::new();
        note(
            &mut findings,
            e > max_index,
            Violation::EndExceedsMaxIndex { end: e, max_index },
            Advice::ReduceEnd,
        );
        note(
            &mut findings,
            n > filesize,
            Violation::CountExceedsFilesize { count: n, filesize },
            Advice::ReduceCount,
        );
        note(&mut findings, n == 0, Violation::CountIsZero, Advice::Blank);
        note(
            &mut findings,
            s_valid && s > max_index as u128,
            Violation::DerivedStartExceedsMaxIndex { start: s, max_index },
            Advice::ReduceEnd,
        );
        note(
            &mut findings,
            !s_valid,
            Violation::CountExceedsEnd { count: n, end: e },
            Advice::CountUpToEnd,
        );
        proof {
            assert(findings@ =~= count_end_findings(filesize, n, e));
        }
        Err(Diagnostic::Violations(findings))
    }
}

/// Resolves the selectors that were given into one range of a file of `filesize`
/// bytes. With none the range is the whole file; with one or two the missing
/// values are derived; with all three nothing is resolved. Invalid selectors give
/// one finding for each condition that is broken.
pub fn resolve(filesize: u64, start: Option<u64>, count: Option<u64>, end: Option<u64>) -> (r:
    Result<ResolvedRange, Diagnostic>)
    requires
        filesize >= 1,
    ensures
        outcome_view(r) == resolution(filesize, start, count, end),
        r matches Ok(range) ==> range.wf(filesize),
        r matches Err(d) ==> !(d@ is UnknownVisualization),
        r matches Err(Diagnostic::Violations(findings)) ==> findings@.len() >= 1,
{
    let max_index: u64 = filesize - 1;
    match (start, count, end) {
        (None, None, None) => Ok(
            ResolvedRange { start_addr: 0, end_addr: max_index, num_bytes: filesize },
        ),
        (Some(s), None, None) => {
            if s < filesize {
                Ok(ResolvedRange { start_addr: s, end_addr: max_index, num_bytes: filesize - s })
            } else {
                Err(
                    one_finding(
                        Violation::StartExceedsMaxIndex { start: s, max_index },
                        Advice::Nothing,
                    ),
                )
            }
        },
        (None, Some(n), None) => {
            if n <= filesize && n != 0 {
                Ok(ResolvedRange { start_addr: 0, end_addr: n - 1, num_bytes: n })
            } else if n > filesize {
                Err(
                    one_finding(
                        Violation::CountExceedsFilesize { count: n, filesize },
                        Advice::Nothing,
                    ),
                )
            } else {
                Err(one_finding(Violation::CountIsZero, Advice::Nothing))
            }
        },
        (None, None, Some(e)) => {
            if e <= max_index {
                Ok(ResolvedRange { start_addr: 0, end_addr: e, num_bytes: e + 1 })
            } else {
                Err(
                    one_finding(
                        Violation::EndExceedsMaxIndex { end: e, max_index },
                        Advice::Nothing,
                    ),
                )
            }
        },
        (Some(s), Some(n), None) => {
            let r = resolve_start_count(filesize, s, n);
            proof {
                lemma_outcome_well_formed(filesize, start, count, end);
            }
            r
        },
        (Some(s), None, Some(e)) => {
            let r = resolve_start_end(filesize, s, e);
            proof {
                lemma_outcome_well_formed(filesize, start, count, end);
            }
            r
        },
        (None, Some(n), Some(e)) => {
            let r = resolve_count_end(filesize, n, e);
            proof {
                lemma_outcome_well_formed(filesize, start, count, end);
            }
            r
        },
        (Some(_), Some(_), Some(_)) => Err(Diagnostic::InvalidCombination),
    }
}

/// Selectors that are rejected for their values break at least one condition, and
/// selectors that are accepted resolve to a range inside the file.
pub proof fn lemma_outcome_well_formed(
    filesize: u64,
    start: Option<u64>,
    count: Option<u64>,
    end: Option<u64>,
)
    requires
        filesize >= 1,
    ensures
        resolution(filesize, start, count, end) matches Err(DiagnosticView::Violations(findings))
            ==> findings.len() >= 1,
        resolution(filesize, start, count, end) matches Ok(range) ==> range.wf(filesize),
{
}

/// With no selector the whole file is selected: from address zero to the last
/// byte, `filesize` bytes.
pub proof fn lemma_no_selector_selects_all(filesize: u64)
    requires
        filesize >= 1,
    ensures
        resolution(filesize, None, None, None) == Ok::<ResolvedRange, DiagnosticView>(
            ResolvedRange {
                start_addr: 0,
                end_addr: (filesize - 1) as u64,
                num_bytes: filesize,
            },
        ),
{
}

/// A start inside the file and a count of at least one that stays inside the file
/// resolve to exactly that count, ending at `s + n - 1`; and resolving the start
/// and end of that range gives the same range back, so the same count.
pub proof fn lemma_start_count_round_trip(filesize: u64, s: u64, n: u64)
    requires
        filesize >= 1,
        s <= filesize - 1,
        n >= 1,
        s + n <= filesize,
    ensures
        resolution(filesize, Some(s), Some(n), None) matches Ok(range) && {
            &&& range.start_addr == s
            &&& range.end_addr == s + n - 1
            &&& range.num_bytes == n
            &&& resolution(filesize, Some(range.start_addr), None, Some(range.end_addr)) == Ok::<
                ResolvedRange,
                DiagnosticView,
            >(range)
        },
{
}

/// A valid count and end resolve to the range that starts at `e - (n - 1)`. A count
/// above `e + 1` is rejected, and the violations say that the count exceeds the end.
pub proof fn lemma_count_end_start(filesize: u64, n: u64, e: u64)
    requires
        filesize >= 1,
    ensures
        count_end_valid(filesize, n, e) ==> (resolution(filesize, None, Some(n), Some(e)) matches Ok(
            range,
        ) && range.start_addr == e - (n - 1) && range.end_addr == e && range.num_bytes == n),
        n > e + 1 ==> (resolution(filesize, None, Some(n), Some(e)) matches Err(
            DiagnosticView::Violations(findings),
        ) && findings.len() >= 1 && findings.last() == Finding {
            violation: Violation::CountExceedsEnd { count: n, end: e },
            advice: Advice::CountUpToEnd,
        }),
{
}

/// Start, count and end together are rejected whatever their values are.
pub proof fn lemma_all_three_rejected(filesize: u64, s: u64, n: u64, e: u64)
    ensures
        resolution(filesize, Some(s), Some(n), Some(e)) == Err::<ResolvedRange, DiagnosticView>(
            DiagnosticView::InvalidCombination,
        ),
{
}

/// Resolving is a function of its inputs: two outcomes of the same selectors on the
/// same file size are the same range, or hold the same diagnostic.
pub proof fn lemma_resolve_deterministic(
    filesize: u64,
    start: Option<u64>,
    count: Option<u64>,
    end: Option<u64>,
    first: Result<ResolvedRange, Diagnostic>,
    second: Result<ResolvedRange, Diagnostic>,
)
    requires
        filesize >= 1,
        outcome_view(first) == resolution(filesize, start, count, end),
        outcome_view(second) == resolution(filesize, start, count, end),
    ensures
        first is Ok <==> second is Ok,
        first is Ok ==> first->Ok_0 == second->Ok_0,
        first is Err ==> first->Err_0@ == second->Err_0@,
{
}

} // verus!
