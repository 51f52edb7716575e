use hexview::args::Cli;
use hexview::dump::{AddrMode, Dump, EmptyFile, VisuMode};
use hexview::range::{Diagnostic, ResolvedRange};
use hexview::report::LineKind;

fn cli(
    visualization: Option<&str>,
    start: Option<u64>,
    num_bytes: Option<u64>,
    end: Option<u64>,
) -> Cli {
    Cli {
        file: "file.bin".to_string(),
        visualization: visualization.map(|v| v.to_string()),
        start,
        num_bytes,
        end,
    }
}

fn sample(len: u8) -> Dump {
    Dump::new((0..len).collect()).unwrap()
}

#[test]
fn new_dump_covers_the_whole_file() {
    let dump = sample(10);
    assert_eq!(dump.filesize(), 10);
    assert_eq!(dump.range(), ResolvedRange { start_addr: 0, end_addr: 9, num_bytes: 10 });
    assert_eq!(dump.visu_mode(), VisuMode::Default);
    assert_eq!(dump.addr_mode(), AddrMode::Default);
}

#[test]
fn empty_file_is_rejected() {
    match Dump::new(Vec::new()) {
        Err(e) => {
            assert_eq!(e, EmptyFile);
            assert_eq!(e.message(), "Error: Cannot dump file with 0 bytes");
        }
        Ok(_) => panic!("an empty file gave a dump"),
    }
}

#[test]
fn check_args_sets_range_and_mode() {
    let mut dump = sample(10);
    assert_eq!(dump.check_args(&cli(Some("ZeRoS"), Some(5), None, None)), Ok(()));
    assert_eq!(dump.range(), ResolvedRange { start_addr: 5, end_addr: 9, num_bytes: 5 });
    assert_eq!(dump.visu_mode(), VisuMode::HighlightZeros);
    assert_eq!(dump.addr_mode(), AddrMode::S);

    let mut dump = sample(10);
    assert_eq!(dump.check_args(&cli(None, None, Some(2), Some(4))), Ok(()));
    assert_eq!(dump.range(), ResolvedRange { start_addr: 3, end_addr: 4, num_bytes: 2 });
    assert_eq!(dump.visu_mode(), VisuMode::Default);
    assert_eq!(dump.addr_mode(), AddrMode::NE);
}

#[test]
fn check_args_names_each_address_mode() {
    let cases = [
        (None, None, None, AddrMode::Default),
        (Some(1), None, None, AddrMode::S),
        (Some(1), Some(2), None, AddrMode::SN),
        (Some(1), None, Some(2), AddrMode::SE),
        (None, Some(2), Some(2), AddrMode::NE),
        (None, Some(2), None, AddrMode::N),
        (None, None, Some(2), AddrMode::E),
    ];
    for (s, n, e, mode) in cases {
        let mut dump = sample(10);
        assert_eq!(dump.check_args(&cli(None, s, n, e)), Ok(()));
        assert_eq!(dump.addr_mode(), mode);
    }
}

#[test]
fn every_mode_has_its_token() {
    assert_eq!(VisuMode::parse("ascii"), Some(VisuMode::AsciiGraphic));
    assert_eq!(VisuMode::parse("zeros"), Some(VisuMode::HighlightZeros));
    assert_eq!(VisuMode::parse("high"), Some(VisuMode::HighBytes));
    assert_eq!(VisuMode::parse("control"), Some(VisuMode::ControlChars));
    assert_eq!(VisuMode::parse("ASCII"), Some(VisuMode::AsciiGraphic));
    assert_eq!(VisuMode::parse("Control"), Some(VisuMode::ControlChars));
    assert_eq!(VisuMode::parse(""), None);
    assert_eq!(VisuMode::parse("default"), None);
    assert_eq!(VisuMode::from_token("ascii"), Some(VisuMode::AsciiGraphic));
    assert_eq!(VisuMode::from_token("ASCII"), None);
    assert_eq!(VisuMode::from_token("ascii "), None);
}

#[test]
fn unknown_mode_is_rejected_and_leaves_the_dump() {
    let mut dump = sample(10);
    let d = dump.check_args(&cli(Some("Rainbow"), Some(5), None, None)).unwrap_err();
    assert_eq!(d, Diagnostic::UnknownVisualization("Rainbow".to_string()));
    assert_eq!(dump.range(), ResolvedRange { start_addr: 0, end_addr: 9, num_bytes: 10 });
    assert_eq!(dump.addr_mode(), AddrMode::Default);
    let lines = d.lines();
    assert_eq!(lines.len(), 6);
    assert_eq!(lines[0].kind, LineKind::Error);
    assert_eq!(lines[0].text, "Error: unknown visualization (-v Rainbow does not exist)");
    assert_eq!(lines[1].text, "-------------------------Usage--------------------------");
    assert_eq!(lines[2].text, "-v ascii:   Highlights ascii printable bytes");
    assert_eq!(lines[3].text, "-v zeros:   Highlights bytes that have the value 0");
    assert_eq!(lines[4].text, "-v high:    Highlights bytes that have a value >= 0x80");
    assert_eq!(lines[5].text, "-v control: Highlights bytes that are control characters");
    assert!(lines[1..].iter().all(|l| l.kind == LineKind::Info));
}

#[test]
fn range_error_comes_before_mode_error() {
    let mut dump = sample(10);
    let d = dump.check_args(&cli(Some("rainbow"), Some(1), Some(1), Some(1))).unwrap_err();
    assert_eq!(d, Diagnostic::InvalidCombination);
    assert_eq!(dump.range(), ResolvedRange { start_addr: 0, end_addr: 9, num_bytes: 10 });
}

#[test]
fn range_line_pads_addresses() {
    let mut dump = sample(40);
    assert_eq!(dump.range_line(), "Dumping 40 bytes from 0000 to 0027");
    assert_eq!(dump.check_args(&cli(None, Some(10), None, Some(30))), Ok(()));
    assert_eq!(dump.range_line(), "Dumping 21 bytes from 000A to 001E");
    assert_eq!(dump.base_padding(), (2, 2));
}

#[test]
fn rows_hold_the_bytes_in_range() {
    let mut dump = sample(40);
    assert_eq!(dump.check_args(&cli(None, Some(18), None, Some(33))), Ok(()));
    assert_eq!(dump.row_span(), (1, 2));
    let row = dump.row(1);
    assert_eq!(row.base, 16);
    assert_eq!(row.cells.len(), 16);
    assert_eq!(row.cells[0], None);
    assert_eq!(row.cells[1], None);
    assert_eq!(row.cells[2], Some(18));
    assert_eq!(row.cells[15], Some(31));
    let row = dump.row(2);
    assert_eq!(row.base, 32);
    assert_eq!(row.cells[0], Some(32));
    assert_eq!(row.cells[1], Some(33));
    assert!(row.cells[2..].iter().all(|c| c.is_none()));
    let row = dump.row(0);
    assert!(row.cells.iter().all(|c| c.is_none()));
}
