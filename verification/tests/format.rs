use hexview::args::{parse_int, ArgError, Cli, Selector};
use hexview::dump::{Dump, VisuMode};
use hexview::render::{ascii_glyph, byte_hex, byte_tint, repeat_str, Tint};
use hexview::text::hex_digits;

#[test]
fn calc_hex_width_test() {
    assert_eq!(Dump::calc_hex_width(0x0000), 4);
    assert_eq!(Dump::calc_hex_width(0xFFFF), 4);
    assert_eq!(Dump::calc_hex_width(0x1FFFF), 5);
    assert_eq!(Dump::calc_hex_width(0xFFFFFFFF), 8);
}

#[test]
fn format_filesize_test() {
    assert_eq!(Dump::format_filesize(1023), "1023 bytes (EOF: 03FE)");
    assert_eq!(
        Dump::format_filesize(1024),
        "1.0 kB (1024 bytes, EOF: 03FF)"
    );
    assert_eq!(
        Dump::format_filesize(1024 * 1024),
        "1.0 MB (1048576 bytes, EOF: FFFFF)"
    );
    assert_eq!(
        Dump::format_filesize(1024 * 1024 * 1024),
        "1.0 GB (1073741824 bytes, EOF: 3FFFFFFF)"
    );
}

#[test]
fn hex_width_grows_with_the_address() {
    assert_eq!(Dump::calc_hex_width(0x10000), 5);
    assert_eq!(Dump::calc_hex_width(0xFFFFF), 5);
    assert_eq!(Dump::calc_hex_width(0x100000), 6);
    assert_eq!(Dump::calc_hex_width(u64::MAX), 16);
    assert_eq!(hex_digits(0), 1);
    assert_eq!(hex_digits(15), 1);
    assert_eq!(hex_digits(16), 2);
    assert_eq!(hex_digits(u64::MAX), 16);
}

#[test]
fn hex_width_agrees_with_leading_zeros() {
    let mut n: u64 = 1;
    for _ in 0..64 {
        for probe in [n - 1, n, n + 1] {
            let digits = if probe == 0 {
                1
            } else {
                ((64 - probe.leading_zeros() + 3) / 4) as usize
            };
            assert_eq!(Dump::calc_hex_width(probe), digits.max(4));
        }
        n = n.wrapping_mul(2);
    }
}

#[test]
fn filesize_of_one_byte() {
    assert_eq!(Dump::format_filesize(1), "1 bytes (EOF: 0000)");
}

#[test]
fn filesize_rounds_to_one_decimal() {
    assert_eq!(Dump::format_filesize(1536), "1.5 kB (1536 bytes, EOF: 05FF)");
    assert_eq!(Dump::format_filesize(1280), "1.2 kB (1280 bytes, EOF: 04FF)");
    assert_eq!(Dump::format_filesize(1792), "1.8 kB (1792 bytes, EOF: 06FF)");
    assert_eq!(
        Dump::format_filesize(1024 * 1024 - 1),
        "1024.0 kB (1048575 bytes, EOF: FFFFE)"
    );
    assert_eq!(
        Dump::format_filesize(5 * 1024 * 1024 * 1024),
        "5.0 GB (5368709120 bytes, EOF: 13FFFFFFF)"
    );
}

#[test]
fn filesize_agrees_with_float_formatting() {
    let mut sizes: Vec<u64> = Vec::new();
    for k in 0..4000u64 {
        sizes.push(1024 + k);
        sizes.push(1024 * 1024 + k * 257);
        sizes.push(1024 * 1024 * 1024 + k * 65_537);
        sizes.push(k * 256 + 1024);
        sizes.push(k * 262_144 + 1024 * 1024);
    }
    for size in sizes {
        let (value, unit) = if size < 1024 * 1024 {
            (size as f64 / 1024.0, "kB")
        } else if size < 1024 * 1024 * 1024 {
            (size as f64 / (1024.0 * 1024.0), "MB")
        } else {
            (size as f64 / (1024.0 * 1024.0 * 1024.0), "GB")
        };
        let width = Dump::calc_hex_width(size - 1);
        let expected = format!(
            "{value:.1} {unit} ({size} bytes, EOF: {:0width$X})",
            size - 1,
            width = width
        );
        assert_eq!(Dump::format_filesize(size), expected);
    }
}

fn float_formatted(size: u64) -> String {
    let value = size as f64 / (1024.0 * 1024.0 * 1024.0);
    let width = Dump::calc_hex_width(size - 1);
    format!(
        "{value:.1} GB ({size} bytes, EOF: {:0width$X})",
        size - 1,
        width = width
    )
}

#[test]
fn filesize_of_huge_files_agrees_with_float_formatting() {
    let mut sizes: Vec<u64> = vec![u64::MAX, u64::MAX - 1, u64::MAX - 1023, u64::MAX - 1024];
    for bit in 52..64u32 {
        let power = 1u64 << bit;
        for k in 0..40u64 {
            sizes.push(power + k);
            sizes.push(power - 1 - k);
            sizes.push(power + (power >> 52) * k / 2 + 1);
        }
    }
    // sizes around the places where the first decimal changes
    for j in 0..60u128 {
        for base in [1u128 << 63, 1u128 << 60, 1u128 << 56, 1u128 << 53] {
            let boundary = base + (2 * (j * 7919) + 1) * (1u128 << 28) / 5;
            let mut d: i128 = -3000;
            while d <= 3000 {
                let size = boundary as i128 + d;
                if size < u64::MAX as i128 {
                    sizes.push(size as u64);
                }
                d += 97;
            }
            for d in -3i128..=3 {
                sizes.push((boundary as i128 + d) as u64);
            }
        }
    }
    for size in sizes {
        assert_eq!(Dump::format_filesize(size), float_formatted(size));
    }
}

#[test]
fn byte_hex_has_two_upper_case_digits() {
    assert_eq!(byte_hex(0), "00");
    assert_eq!(byte_hex(0x0a), "0A");
    assert_eq!(byte_hex(0xff), "FF");
}

#[test]
fn tint_follows_the_mode() {
    assert_eq!(byte_tint(b'A', VisuMode::Default), Tint::Plain);
    assert_eq!(byte_tint(b'A', VisuMode::AsciiGraphic), Tint::BrightGreen);
    assert_eq!(byte_tint(b' ', VisuMode::AsciiGraphic), Tint::BrightGreen);
    assert_eq!(byte_tint(0x7f, VisuMode::AsciiGraphic), Tint::BrightRed);
    assert_eq!(byte_tint(0, VisuMode::HighlightZeros), Tint::BrightMagenta);
    assert_eq!(byte_tint(1, VisuMode::HighlightZeros), Tint::Plain);
    assert_eq!(byte_tint(0x80, VisuMode::HighBytes), Tint::BrightBlue);
    assert_eq!(byte_tint(0x7f, VisuMode::HighBytes), Tint::Plain);
    assert_eq!(byte_tint(0x1f, VisuMode::ControlChars), Tint::Yellow);
    assert_eq!(byte_tint(0x7f, VisuMode::ControlChars), Tint::Yellow);
    assert_eq!(byte_tint(0x20, VisuMode::ControlChars), Tint::Plain);
}

#[test]
fn tint_and_glyph_agree_with_std_on_every_byte() {
    for byte in 0..=255u8 {
        let shown = byte.is_ascii_graphic() || byte == b' ';
        assert_eq!(ascii_glyph(byte), if shown { Some(byte as char) } else { None });
        assert_eq!(
            byte_tint(byte, VisuMode::AsciiGraphic),
            if shown { Tint::BrightGreen } else { Tint::BrightRed }
        );
        assert_eq!(
            byte_tint(byte, VisuMode::ControlChars),
            if byte.is_ascii_control() { Tint::Yellow } else { Tint::Plain }
        );
    }
}

#[test]
fn repeat_str_writes_the_piece_n_times() {
    assert_eq!(repeat_str("ab", 3), "ababab");
    assert_eq!(repeat_str("ab", 0), "");
    assert_eq!(repeat_str(" ", 2), "  ");
}

#[test]
fn parse_int_reads_decimal_and_hex() {
    assert_eq!(parse_int("42"), Ok(42));
    assert_eq!(parse_int("0x1F"), Ok(31));
    assert_eq!(parse_int("0x1f"), Ok(31));
    assert_eq!(parse_int("0"), Ok(0));
    assert_eq!(parse_int("18446744073709551615"), Ok(u64::MAX));
    assert_eq!(parse_int("0xFFFFFFFFFFFFFFFF"), Ok(u64::MAX));
    assert_eq!(parse_int("10"), Ok(10));
    assert_eq!(parse_int("0x10"), Ok(16));
}

#[test]
fn parse_int_rejects_what_is_no_number() {
    assert_eq!(parse_int("zz"), Err("invalid digit found in string".to_string()));
    assert_eq!(parse_int("1F"), Err("invalid digit found in string".to_string()));
    assert_eq!(parse_int("0X1F"), Err("invalid digit found in string".to_string()));
    assert_eq!(parse_int(""), Err("cannot parse integer from empty string".to_string()));
    assert_eq!(parse_int("0x"), Err("cannot parse integer from empty string".to_string()));
    assert_eq!(
        parse_int("18446744073709551616"),
        Err("number too large to fit in target type".to_string())
    );
    assert_eq!(
        parse_int("0x10000000000000000"),
        Err("number too large to fit in target type".to_string())
    );
}

#[test]
fn get_args_parses_the_selectors() {
    let cli = Cli::get_args(
        "a.bin".to_string(),
        Some("zeros".to_string()),
        Some("0x10".to_string()),
        None,
        Some("32".to_string()),
    );
    assert_eq!(
        cli,
        Ok(Cli {
            file: "a.bin".to_string(),
            visualization: Some("zeros".to_string()),
            start: Some(16),
            num_bytes: None,
            end: Some(32),
        })
    );
}

#[test]
fn get_args_reports_the_first_bad_selector() {
    let r = Cli::get_args(
        "a.bin".to_string(),
        None,
        Some("1".to_string()),
        Some("x".to_string()),
        Some("y".to_string()),
    );
    assert_eq!(
        r,
        Err(ArgError {
            selector: Selector::NumBytes,
            message: "invalid digit found in string".to_string(),
        })
    );
    let r = Cli::get_args("a.bin".to_string(), None, Some("".to_string()), None, None);
    assert_eq!(
        r,
        Err(ArgError {
            selector: Selector::Start,
            message: "cannot parse integer from empty string".to_string(),
        })
    );
    let r = Cli::get_args("a.bin".to_string(), None, None, None, Some("-1".to_string()));
    assert_eq!(
        r,
        Err(ArgError {
            selector: Selector::End,
            message: "invalid digit found in string".to_string(),
        })
    );
}
