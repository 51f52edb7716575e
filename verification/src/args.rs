//! The command line's values: number syntax and the arguments of one run.

use vstd::prelude::*;
use vstd::string::StrSliceExecFns;

verus! {

/// The value of a character as a digit: `0` to `9`, then the letters of either
/// case for ten and above; none for any other character.
pub open spec fn digit_value(c: char) -> Option<nat> {
    let code = c as int;
    if '0' as int <= code <= '9' as int {
        Some((code - '0' as int) as nat)
    } else if 'a' as int <= code <= 'z' as int {
        Some((code - 'a' as int + 10) as nat)
    } else if 'A' as int <= code <= 'Z' as int {
        Some((code - 'A' as int + 10) as nat)
    } else {
        None
    }
}

/// The number that `digits` stand for in `radix`, most significant first; none
/// if one of them is no digit of that radix.
pub open spec fn digits_value(digits: Seq<char>, radix: nat) -> Option<nat>
    decreases digits.len(),
{
    if digits.len() == 0 {
        Some(0)
    } else {
        match (digits_value(digits.drop_last(), radix), digit_value(digits.last())) {
            (Some(high), Some(d)) => if d < radix {
                Some(high * radix + d)
            } else {
                None
            },
            _ => None,
        }
    }
}

/// The number that `text` stands for in `radix`: an optional `+`, then at least
/// one digit, and nothing else.
pub open spec fn unsigned_value(text: Seq<char>, radix: nat) -> Option<nat> {
    let digits = if text.len() > 0 && text[0] == '+' {
        text.skip(1)
    } else {
        text
    };
    if digits.len() == 0 {
        None
    } else {
        digits_value(digits, radix)
    }
}

/// The number if there is one and it fits in 64 bits, the failure's text otherwise.
pub open spec fn number_or(value: Option<nat>, failure: Seq<char>) -> Result<u64, Seq<char>> {
    match value {
        Some(n) => if n <= u64::MAX {
            Ok(n as u64)
        } else {
            Err(failure)
        },
        None => Err(failure),
    }
}

/// What the error of std's `u64::from_str_radix` with radix 16 says of `text`.
pub uninterp spec fn hex_failure(text: Seq<char>) -> Seq<char>;

/// What the error of std's `str::parse::<u64>` says of `text`.
pub uninterp spec fn decimal_failure(text: Seq<char>) -> Seq<char>;

/// The mathematical content of a parsed number or the message in place of it.
pub open spec fn number_view(r: Result<u64, String>) -> Result<u64, Seq<char>> {
    match r {
        Ok(v) => Ok(v),
        Err(message) => Err(message@),
    }
}

/// Calls `u64::from_str_radix` with radix 16 and turns its error into text with
/// `to_string`. As std documents it, the text is an optional `+` and then only
/// digits, here `0`-`9`, `a`-`f` and `A`-`F`; anything else, no digit at all, or a
/// number that does not fit is an error. The error's text depends on the
/// argument alone and has a name.
#[verifier::external_body]
fn parse_hex(text: &str) -> (r: Result<u64, String>)
    ensures
        number_view(r) == number_or(unsigned_value(text@, 16), hex_failure(text@)),
{
    match u64::from_str_radix(text, 16) {
        Ok(v) => Ok(v),
        Err(e) => Err(e.to_string()),
    }
}

/// Calls `str::parse::<u64>` and turns its error into text with `to_string`. As
/// std documents it, the text is an optional `+` and then only decimal digits;
/// anything else, no digit at all, or a number that does not fit is an error. The
/// error's text depends on the argument alone and has a name.
#[verifier::external_body]
fn parse_decimal(text: &str) -> (r: Result<u64, String>)
    ensures
        number_view(r) == number_or(unsigned_value(text@, 10), decimal_failure(text@)),
{
    match text.parse::<u64>() {
        Ok(v) => Ok(v),
        Err(e) => Err(e.to_string()),
    }
}

/// Whether `text` begins with `0x`.
pub open spec fn has_hex_prefix(text: Seq<char>) -> bool {
    text.len() >= 2 && text[0] == '0' && text[1] == 'x'
}

/// The number that `text` stands for: hexadecimal after a leading `0x`, decimal
/// otherwise; or the number parser's message.
pub open spec fn parsed_int(text: Seq<char>) -> Result<u64, Seq<char>> {
    if has_hex_prefix(text) {
        number_or(unsigned_value(text.skip(2), 16), hex_failure(text.skip(2)))
    } else {
        number_or(unsigned_value(text, 10), decimal_failure(text))
    }
}

/// Reads an address or a count: what follows a leading `0x` is read as hexadecimal,
/// anything else as decimal. The error is the message of the number parser.
pub fn parse_int(src: &str) -> (r: Result<u64, String>)
    ensures
        number_view(r) == parsed_int(src@),
{
    let len = src.unicode_len();
    if len >= 2 && src.get_char(0) == '0' && src.get_char(1) == 'x' {
        let digits = src.substring_char(2, len);
        proof {
            assert(src@.subrange(2, len as int) =~= src@.skip(2));
        }
        parse_hex(digits)
    } else {
        parse_decimal(src)
    }
}

/// The arguments of one run, numbers parsed.
#[derive(Debug, Clone, PartialEq, Eq)]
pub struct Cli {
    /// Path to the file to dump.
    pub file: String,
    /// Visualization mode, as it was typed.
    pub visualization: Option<String>,
    /// Start address of the dump.
    pub start: Option<u64>,
    /// Number of bytes to show.
    pub num_bytes: Option<u64>,
    /// End address of the dump.
    pub end: Option<u64>,
}

/// The selector whose value could not be read as a number.
#[derive(Debug, Clone, Copy, PartialEq, Eq)]
pub enum Selector {
    Start,
    NumBytes,
    End,
}

/// A selector value that is no number, with the parser's message.
#[derive(Debug, Clone, PartialEq, Eq)]
pub struct ArgError {
    pub selector: Selector,
    pub message: String,
}

/// The number that an optional text stands for, where the text is there and is a number.
pub open spec fn parsed_selector(text: Option<Seq<char>>) -> Result<Option<u64>, Seq<char>> {
    match text {
        None => Ok(None),
        Some(t) => match parsed_int(t) {
            Ok(v) => Ok(Some(v)),
            Err(message) => Err(message),
        },
    }
}

/// The view of an optional text.
pub open spec fn text_view(text: Option<String>) -> Option<Seq<char>> {
    match text {
        None => None,
        Some(t) => Some(t@),
    }
}

fn parse_selector(text: &Option<String>) -> (r: Result<Option<u64>, String>)
    ensures
        match r {
            Ok(v) => parsed_selector(text_view(*text)) == Ok::<Option<u64>, Seq<char>>(v),
            Err(message) => parsed_selector(text_view(*text)) == Err::<Option<u64>, Seq<char>>(
                message@,
            ),
        },
{
    match text {
        None => Ok(None),
        Some(t) => match parse_int(t.as_str()) {
            Ok(v) => Ok(Some(v)),
            Err(message) => Err(message),
        },
    }
}

impl Cli {
    /// Puts together the arguments of one run from the path, the visualization
    /// token and the texts of the three selectors as they were typed. The first
    /// selector, in the order start, count, end, whose text is no number is
    /// reported; with none such the arguments hold the three numbers.
    pub fn get_args(
        file: String,
        visualization: Option<String>,
        start: Option<String>,
        num_bytes: Option<String>,
        end: Option<String>,
    ) -> (r: Result<Cli, ArgError>)
        ensures
            match r {
                Ok(cli) => {
                    &&& cli.file == file
                    &&& cli.visualization == visualization
                    &&& parsed_selector(text_view(start)) == Ok::<Option<u64>, Seq<char>>(cli.start)
                    &&& parsed_selector(text_view(num_bytes)) == Ok::<Option<u64>, Seq<char>>(
                        cli.num_bytes,
                    )
                    &&& parsed_selector(text_view(end)) == Ok::<Option<u64>, Seq<char>>(cli.end)
                },
                Err(e) => match e.selector {
                    Selector::Start => parsed_selector(text_view(start)) == Err::<
                        Option<u64>,
                        Seq<char>,
                    >(e.message@),
                    Selector::NumBytes => parsed_selector(text_view(start)) is Ok
                        && parsed_selector(text_view(num_bytes)) == Err::<Option<u64>, Seq<char>>(
                        e.message@,
                    ),
                    Selector::End => parsed_selector(text_view(start)) is Ok && parsed_selector(
                        text_view(num_bytes),
                    ) is Ok && parsed_selector(text_view(end)) == Err::<Option<u64>, Seq<char>>(
                        e.message@,
                    ),
                },
            },
    {
        let start = match parse_selector(&start) {
            Ok(v) => v,
            Err(message) => {
                return Err(ArgError { selector: Selector::Start, message });
            },
        };
        let num_bytes = match parse_selector(&num_bytes) {
            Ok(v) => v,
            Err(message) => {
                return Err(ArgError { selector: Selector::NumBytes, message });
            },
        };
        let end = match parse_selector(&end) {
            Ok(v) => v,
            Err(message) => {
                return Err(ArgError { selector: Selector::End, message });
            },
        };
        Ok(Cli { file, visualization, start, num_bytes, end })
    }
}

} // verus!
