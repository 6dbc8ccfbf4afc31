//! Arguments of the bounded capture diagnostic (`lcrt-pw-capture`): list the
//! sources, or capture one source for a clamped number of seconds.

use vstd::prelude::*;

use crate::audio::{descriptor_view, AudioSourceDescriptor};
use crate::cli::is_ascii_digit;
use crate::controller::{first_with_id, has_source_with_id};
use crate::text::{chars_of, push_text, same_text};

verus! {

broadcast use vstd::string::group_string_axioms;

/// What the diagnostic was asked to do.
#[derive(Clone, Debug, PartialEq, Eq)]
pub enum CaptureCommand {
    /// Print every source.
    List,
    /// Capture this source for this many seconds.
    Capture { source_id: String, seconds: u64 },
}

/// Why the diagnostic's arguments were refused.
#[derive(Clone, Debug, PartialEq, Eq)]
pub enum CaptureArgsError {
    /// `capture` without a source identifier.
    MissingSource,
    /// The seconds argument is not a whole number that fits in a `u64`; the
    /// message says why, as `u64::from_str` does.
    InvalidSeconds(String),
    /// Neither `list` nor `capture`.
    UnknownCommand(String),
}

pub open spec fn missing_source_message() -> Seq<char> {
    "usage: lcrt-pw-capture capture <source-id> [seconds]"@
}

pub open spec fn unknown_command_message(command: Seq<char>) -> Seq<char> {
    "unknown command `"@ + command + "`; expected `list` or `capture`"@
}

impl CaptureArgsError {
    /// The error message.
    pub fn message(&self) -> (s: String)
        ensures
            *self is MissingSource ==> s@ == missing_source_message(),
            self matches CaptureArgsError::InvalidSeconds(m) ==> s@ == m@,
            self matches CaptureArgsError::UnknownCommand(c) ==> s@ == unknown_command_message(c@),
    {
        match self {
            CaptureArgsError::MissingSource => "usage: lcrt-pw-capture capture <source-id> [seconds]".to_owned(),
            CaptureArgsError::InvalidSeconds(m) => m.clone(),
            CaptureArgsError::UnknownCommand(c) => {
                let mut s = String::new();
                push_text(&mut s, "unknown command `");
                push_text(&mut s, c.as_str());
                push_text(&mut s, "`; expected `list` or `capture`");
                s
            },
        }
    }
}

/// How reading a whole number of seconds ends.
pub enum SecondsParse {
    Value(nat),
    Empty,
    InvalidDigit,
    Overflow,
}

/// Reads decimal digits left to right onto `value`: the first character
/// that is not an ASCII digit, or the first digit that takes the number past
/// `u64::MAX`, ends the reading with that problem.
pub open spec fn scan_digits(digits: Seq<char>, value: nat) -> SecondsParse
    decreases digits.len(),
{
    if digits.len() == 0 {
        SecondsParse::Value(value)
    } else if !is_ascii_digit(digits[0]) {
        SecondsParse::InvalidDigit
    } else {
        let next = value * 10 + ((digits[0] as int) - ('0' as int)) as nat;
        if next > u64::MAX {
            SecondsParse::Overflow
        } else {
            scan_digits(digits.drop_first(), next)
        }
    }
}

/// How `u64::from_str` reads `s`: empty is its own error; a lone sign is an
/// invalid digit; otherwise an optional `+` and then the digits.
pub open spec fn seconds_parse(s: Seq<char>) -> SecondsParse {
    if s.len() == 0 {
        SecondsParse::Empty
    } else if s.len() == 1 && (s[0] == '+' || s[0] == '-') {
        SecondsParse::InvalidDigit
    } else if s[0] == '+' {
        scan_digits(s.drop_first(), 0)
    } else {
        scan_digits(s, 0)
    }
}

/// The message of each way reading the number can fail (the texts of
/// `ParseIntError`).
pub open spec fn seconds_error_message(p: SecondsParse) -> Seq<char> {
    match p {
        SecondsParse::Empty => "cannot parse integer from empty string"@,
        SecondsParse::Overflow => "number too large to fit in target type"@,
        _ => "invalid digit found in string"@,
    }
}

/// Reads the seconds argument as `u64::from_str` does.
fn parse_u64(value: &str) -> (r: Result<u64, String>)
    ensures
        match seconds_parse(value@) {
            SecondsParse::Value(n) => r == Ok::<u64, String>(n as u64) && n <= u64::MAX,
            p => r matches Err(m) && m@ == seconds_error_message(p),
        },
{
    let chars = chars_of(value);
    let ghost s = value@;
    if chars.len() == 0 {
        return Err("cannot parse integer from empty string".to_owned());
    }
    if chars.len() == 1 && (chars[0] == '+' || chars[0] == '-') {
        return Err("invalid digit found in string".to_owned());
    }
    let start: usize = if chars[0] == '+' {
        1
    } else {
        0
    };
    let ghost digits = if s[0] == '+' {
        s.drop_first()
    } else {
        s
    };
    assert(digits =~= s.skip(start as int));
    assert(seconds_parse(s) == scan_digits(digits, 0));
    let mut v: u64 = 0;
    let mut k: usize = start;
    while k < chars.len()
        invariant
            chars@ == s,
            s == value@,
            start <= k <= s.len(),
            seconds_parse(s) == scan_digits(digits, 0),
            digits == s.skip(start as int),
            scan_digits(digits, 0) == scan_digits(s.skip(k as int), v as nat),
        decreases chars.len() - k,
    {
        let ghost rest = s.skip(k as int);
        assert(rest[0] == s[k as int]);
        let c = chars[k];
        if !('0' <= c && c <= '9') {
            assert(!is_ascii_digit(rest[0]));
            assert(scan_digits(rest, v as nat) == SecondsParse::InvalidDigit);
            return Err("invalid digit found in string".to_owned());
        }
        let d = (c as u32 - '0' as u32) as u64;
        assert(rest.drop_first() =~= s.skip(k + 1));
        let next = match v.checked_mul(10) {
            Some(m) => m.checked_add(d),
            None => None,
        };
        match next {
            Some(n) => {
                v = n;
            },
            None => {
                assert(v as nat * 10 + d > u64::MAX);
                assert(scan_digits(rest, v as nat) == SecondsParse::Overflow);
                return Err("number too large to fit in target type".to_owned());
            },
        }
        k += 1;
    }
    assert(s.skip(k as int) =~= Seq::<char>::empty());
    Ok(v)
}

/// `n` limited to 1 through 30.
pub open spec fn clamp_seconds(n: nat) -> nat {
    if n < 1 {
        1
    } else if n > 30 {
        30
    } else {
        n
    }
}

/// A command, with texts as character sequences.
pub enum CaptureCommandView {
    List,
    Capture { source_id: Seq<char>, seconds: nat },
}

/// How the arguments are refused, with texts as character sequences.
pub enum CaptureArgsErrorView {
    MissingSource,
    InvalidSeconds(Seq<char>),
    UnknownCommand(Seq<char>),
}

/// The command the arguments (after the program's name) denote: the first
/// names the command, `list` when there is none; `capture` takes a source
/// identifier and an optional number of seconds, 3 by default, limited to
/// 1 through 30. Further arguments are ignored.
pub open spec fn capture_command_spec(args: Seq<Seq<char>>) -> Result<
    CaptureCommandView,
    CaptureArgsErrorView,
> {
    let command = if args.len() > 0 {
        args[0]
    } else {
        "list"@
    };
    if command == "list"@ {
        Ok(CaptureCommandView::List)
    } else if command == "capture"@ {
        if args.len() < 2 {
            Err(CaptureArgsErrorView::MissingSource)
        } else if args.len() < 3 {
            Ok(CaptureCommandView::Capture { source_id: args[1], seconds: 3 })
        } else {
            match seconds_parse(args[2]) {
                SecondsParse::Value(n) => Ok(
                    CaptureCommandView::Capture { source_id: args[1], seconds: clamp_seconds(n) },
                ),
                p => Err(CaptureArgsErrorView::InvalidSeconds(seconds_error_message(p))),
            }
        }
    } else {
        Err(CaptureArgsErrorView::UnknownCommand(command))
    }
}

pub open spec fn capture_args_view(r: Result<CaptureCommand, CaptureArgsError>) -> Result<
    CaptureCommandView,
    CaptureArgsErrorView,
> {
    match r {
        Ok(CaptureCommand::List) => Ok(CaptureCommandView::List),
        Ok(CaptureCommand::Capture { source_id, seconds }) => Ok(
            CaptureCommandView::Capture { source_id: source_id@, seconds: seconds as nat },
        ),
        Err(CaptureArgsError::MissingSource) => Err(CaptureArgsErrorView::MissingSource),
        Err(CaptureArgsError::InvalidSeconds(m)) => Err(CaptureArgsErrorView::InvalidSeconds(m@)),
        Err(CaptureArgsError::UnknownCommand(c)) => Err(CaptureArgsErrorView::UnknownCommand(c@)),
    }
}

pub open spec fn strings_view(args: Seq<String>) -> Seq<Seq<char>> {
    args.map_values(|a: String| a@)
}

/// Reads the diagnostic's arguments (after the program's name). The number
/// of seconds of a capture is always from 1 to 30.
pub fn parse_capture_arguments(arguments: Vec<String>) -> (r: Result<CaptureCommand, CaptureArgsError>)
    ensures
        capture_args_view(r) == capture_command_spec(strings_view(arguments@)),
        r matches Ok(CaptureCommand::Capture { seconds, .. }) ==> 1 <= seconds <= 30,
{
    let ghost args = strings_view(arguments@);
    let command: &str = if arguments.len() > 0 {
        arguments[0].as_str()
    } else {
        "list"
    };
    proof {
        if arguments.len() > 0 {
            assert(args[0] == arguments@[0]@);
        }
    }
    if same_text(command, "list") {
        return Ok(CaptureCommand::List);
    }
    if !same_text(command, "capture") {
        return Err(CaptureArgsError::UnknownCommand(command.to_owned()));
    }
    if arguments.len() < 2 {
        return Err(CaptureArgsError::MissingSource);
    }
    assert(args[1] == arguments@[1]@);
    let source_id = arguments[1].clone();
    if arguments.len() < 3 {
        return Ok(CaptureCommand::Capture { source_id, seconds: 3 });
    }
    assert(args[2] == arguments@[2]@);
    match parse_u64(arguments[2].as_str()) {
        Ok(n) => {
            let seconds: u64 = if n < 1 {
                1
            } else if n > 30 {
                30
            } else {
                n
            };
            Ok(CaptureCommand::Capture { source_id, seconds })
        },
        Err(m) => Err(CaptureArgsError::InvalidSeconds(m)),
    }
}

pub open spec fn source_not_found_message(id: Seq<char>) -> Seq<char> {
    "PipeWire source `"@ + id + "` was not found"@
}

/// The first source with identifier `id`, or the message that there is
/// none.
pub fn find_capture_source(sources: Vec<AudioSourceDescriptor>, id: &str) -> (r: Result<
    AudioSourceDescriptor,
    String,
>)
    ensures
        match r {
            Ok(d) => exists|i: int|
                first_with_id(sources@.map_values(|d: AudioSourceDescriptor| descriptor_view(d)), id@, i)
                    && #[trigger] descriptor_view(d) == descriptor_view(sources@[i]),
            Err(m) => !has_source_with_id(
                sources@.map_values(|d: AudioSourceDescriptor| descriptor_view(d)),
                id@,
            ) && m@ == source_not_found_message(id@),
        },
{
    let ghost view = sources@.map_values(|d: AudioSourceDescriptor| descriptor_view(d));
    let mut i: usize = 0;
    while i < sources.len()
        invariant
            i <= sources@.len(),
            view == sources@.map_values(|d: AudioSourceDescriptor| descriptor_view(d)),
            forall|j: int| 0 <= j < i ==> (#[trigger] view[j]).0 != id@,
        decreases sources.len() - i,
    {
        assert(view[i as int] == descriptor_view(sources@[i as int]));
        if same_text(sources[i].id(), id) {
            let found = sources[i].duplicate();
            assert(first_with_id(view, id@, i as int));
            assert(descriptor_view(found) == descriptor_view(sources@[i as int]));
            return Ok(found);
        }
        i += 1;
    }
    let mut m = String::new();
    push_text(&mut m, "PipeWire source `");
    push_text(&mut m, id);
    push_text(&mut m, "` was not found");
    Err(m)
}

} // verus!
