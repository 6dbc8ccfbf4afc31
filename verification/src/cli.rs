//! Command-line arguments of the caption application.
//!
//! The program hands the arguments over one by one, each as its text when it
//! is valid UTF-8; the value after `--model` is the only one that may be
//! anything else, because it is used as a path without being read as text.

use std::time::Duration;
use vstd::prelude::*;

use crate::duration::{duration_nanos, from_secs};
use crate::text::{chars_of, push_text, same_text};

verus! {

broadcast use vstd::string::group_string_axioms;

/// Where the local Whisper model path comes from.
#[derive(Clone, Copy, Debug, PartialEq, Eq)]
pub enum ModelPath {
    /// The `LCRT_MODEL_PATH` environment variable.
    Environment,
    /// The argument at this position (the value after `--model`), taken as
    /// given.
    Argument(usize),
}

/// A bounded diagnostic run: caption one source, then stop.
#[derive(Clone, Debug, PartialEq, Eq)]
pub struct SmokeConfig {
    /// Identifier of the source to caption.
    pub source_id: String,
    /// How long to caption before stopping.
    pub duration: Duration,
}

/// Configuration of one application run.
#[derive(Clone, Debug, PartialEq, Eq)]
pub struct AppConfig {
    /// Where the model path comes from, if one was given.
    pub model_path: Option<ModelPath>,
    /// Language code handed to Whisper.
    pub language: Option<String>,
    /// Only list the capture sources.
    pub list_sources: bool,
    /// A bounded diagnostic run, if requested.
    pub smoke: Option<SmokeConfig>,
}

/// What the command line asks for.
#[derive(Clone, Debug, PartialEq, Eq)]
pub enum ParsedCommand {
    /// Run the application.
    Run(AppConfig),
    /// Print the usage text.
    Help,
}

/// The options read so far.
pub struct ArgScan {
    pub model_path: Option<ModelPath>,
    pub language: Option<Seq<char>>,
    pub list_sources: bool,
    pub smoke_source: Option<Seq<char>>,
    pub smoke_seconds: nat,
    pub seconds_given: bool,
}

/// How a scan of the arguments ends.
pub enum ArgScanEnd {
    Help,
    Done(ArgScan),
    Failed(Seq<char>),
}

/// A parsed command, with texts as character sequences and the smoke
/// duration in nanoseconds.
pub enum CommandView {
    Help,
    Run {
        model_path: Option<ModelPath>,
        language: Option<Seq<char>>,
        list_sources: bool,
        smoke: Option<(Seq<char>, nat)>,
    },
}

pub open spec fn utf8_error() -> Seq<char> {
    "arguments must be valid UTF-8"@
}

pub open spec fn missing_value_error(option: Seq<char>) -> Seq<char> {
    option + " requires a value"@
}

pub open spec fn smoke_seconds_error() -> Seq<char> {
    "--smoke-seconds must be an integer from 1 to 120"@
}

pub open spec fn unknown_argument_error(argument: Seq<char>) -> Seq<char> {
    "unknown argument: "@ + argument
}

pub open spec fn seconds_without_source_error() -> Seq<char> {
    "--smoke-seconds requires --smoke-source"@
}

pub open spec fn is_ascii_digit(c: char) -> bool {
    '0' <= c <= '9'
}

/// The number a string of decimal digits denotes.
pub open spec fn digits_value(d: Seq<char>) -> nat
    decreases d.len(),
{
    if d.len() == 0 {
        0
    } else {
        digits_value(d.drop_last()) * 10 + ((d.last() as int) - ('0' as int)) as nat
    }
}

/// The part of `s` after an optional leading `+`.
pub open spec fn unsigned_digits(s: Seq<char>) -> Seq<char> {
    if s.len() > 0 && s[0] == '+' {
        s.drop_first()
    } else {
        s
    }
}

pub open spec fn all_ascii_digits(d: Seq<char>) -> bool {
    forall|i: int| 0 <= i < d.len() ==> is_ascii_digit(#[trigger] d[i])
}

/// The number that `u64::from_str` reads, before its upper bound is applied:
/// an optional `+`, then at least one ASCII digit and nothing else.
pub open spec fn unsigned_decimal(s: Seq<char>) -> Option<nat> {
    let digits = unsigned_digits(s);
    if digits.len() > 0 && all_ascii_digits(digits) {
        Some(digits_value(digits))
    } else {
        None
    }
}

/// Whether `s` is a whole number of seconds from 1 to 120.
pub open spec fn valid_smoke_seconds(s: Seq<char>) -> bool {
    unsigned_decimal(s) matches Some(n) && 1 <= n <= 120
}

pub open spec fn scan_with_model(acc: ArgScan, index: int) -> ArgScan {
    ArgScan {
        model_path: Some(ModelPath::Argument(index as usize)),
        language: acc.language,
        list_sources: acc.list_sources,
        smoke_source: acc.smoke_source,
        smoke_seconds: acc.smoke_seconds,
        seconds_given: acc.seconds_given,
    }
}

pub open spec fn scan_with_language(acc: ArgScan, language: Seq<char>) -> ArgScan {
    ArgScan {
        model_path: acc.model_path,
        language: Some(language),
        list_sources: acc.list_sources,
        smoke_source: acc.smoke_source,
        smoke_seconds: acc.smoke_seconds,
        seconds_given: acc.seconds_given,
    }
}

pub open spec fn scan_with_listing(acc: ArgScan) -> ArgScan {
    ArgScan {
        model_path: acc.model_path,
        language: acc.language,
        list_sources: true,
        smoke_source: acc.smoke_source,
        smoke_seconds: acc.smoke_seconds,
        seconds_given: acc.seconds_given,
    }
}

pub open spec fn scan_with_source(acc: ArgScan, source: Seq<char>) -> ArgScan {
    ArgScan {
        model_path: acc.model_path,
        language: acc.language,
        list_sources: acc.list_sources,
        smoke_source: Some(source),
        smoke_seconds: acc.smoke_seconds,
        seconds_given: acc.seconds_given,
    }
}

pub open spec fn scan_with_seconds(acc: ArgScan, seconds: nat) -> ArgScan {
    ArgScan {
        model_path: acc.model_path,
        language: acc.language,
        list_sources: acc.list_sources,
        smoke_source: acc.smoke_source,
        smoke_seconds: seconds,
        seconds_given: true,
    }
}

/// Reads the arguments from position `i` on, left to right; the first
/// problem ends the scan, and so does a request for help.
pub open spec fn scan_arguments(args: Seq<Option<Seq<char>>>, i: nat, acc: ArgScan) -> ArgScanEnd
    decreases args.len() - i,
{
    if i >= args.len() {
        ArgScanEnd::Done(acc)
    } else {
        match args[i as int] {
            None => ArgScanEnd::Failed(utf8_error()),
            Some(a) => if a == "--help"@ || a == "-h"@ {
                ArgScanEnd::Help
            } else if a == "--model"@ {
                if i + 1 >= args.len() {
                    ArgScanEnd::Failed(missing_value_error(a))
                } else {
                    scan_arguments(args, i + 2, scan_with_model(acc, i + 1 as int))
                }
            } else if a == "--language"@ {
                if i + 1 >= args.len() {
                    ArgScanEnd::Failed(missing_value_error(a))
                } else {
                    match args[i + 1 as int] {
                        None => ArgScanEnd::Failed(utf8_error()),
                        Some(v) => scan_arguments(args, i + 2, scan_with_language(acc, v)),
                    }
                }
            } else if a == "--list-sources"@ {
                scan_arguments(args, i + 1, scan_with_listing(acc))
            } else if a == "--smoke-source"@ {
                if i + 1 >= args.len() {
                    ArgScanEnd::Failed(missing_value_error(a))
                } else {
                    match args[i + 1 as int] {
                        None => ArgScanEnd::Failed(utf8_error()),
                        Some(v) => scan_arguments(args, i + 2, scan_with_source(acc, v)),
                    }
                }
            } else if a == "--smoke-seconds"@ {
                if i + 1 >= args.len() {
                    ArgScanEnd::Failed(missing_value_error(a))
                } else {
                    match args[i + 1 as int] {
                        None => ArgScanEnd::Failed(utf8_error()),
                        Some(v) => match unsigned_decimal(v) {
                            Some(n) => if 1 <= n <= 120 {
                                scan_arguments(args, i + 2, scan_with_seconds(acc, n))
                            } else {
                                ArgScanEnd::Failed(smoke_seconds_error())
                            },
                            None => ArgScanEnd::Failed(smoke_seconds_error()),
                        },
                    }
                }
            } else {
                ArgScanEnd::Failed(unknown_argument_error(a))
            },
        }
    }
}

/// Nothing read yet: the model path is the environment's, if it is set, and a
/// smoke run lasts ten seconds.
pub open spec fn initial_scan(env_model_path: bool) -> ArgScan {
    ArgScan {
        model_path: if env_model_path {
            Some(ModelPath::Environment)
        } else {
            None
        },
        language: None,
        list_sources: false,
        smoke_source: None,
        smoke_seconds: 10,
        seconds_given: false,
    }
}

/// The command the arguments denote, or the message of the first problem.
pub open spec fn command_spec(args: Seq<Option<Seq<char>>>, env_model_path: bool) -> Result<
    CommandView,
    Seq<char>,
> {
    match scan_arguments(args, 0, initial_scan(env_model_path)) {
        ArgScanEnd::Help => Ok(CommandView::Help),
        ArgScanEnd::Failed(m) => Err(m),
        ArgScanEnd::Done(acc) => if acc.seconds_given && acc.smoke_source is None {
            Err(seconds_without_source_error())
        } else {
            Ok(
                CommandView::Run {
                    model_path: acc.model_path,
                    language: acc.language,
                    list_sources: acc.list_sources,
                    smoke: match acc.smoke_source {
                        Some(s) => Some((s, acc.smoke_seconds * 1_000_000_000)),
                        None => None,
                    },
                },
            )
        },
    }
}

pub open spec fn text_option_view(o: Option<String>) -> Option<Seq<char>> {
    match o {
        Some(s) => Some(s@),
        None => None,
    }
}

pub open spec fn arguments_view(args: Seq<Option<String>>) -> Seq<Option<Seq<char>>> {
    args.map_values(|a: Option<String>| text_option_view(a))
}

pub open spec fn command_view(c: ParsedCommand) -> CommandView {
    match c {
        ParsedCommand::Help => CommandView::Help,
        ParsedCommand::Run(config) => CommandView::Run {
            model_path: config.model_path,
            language: text_option_view(config.language),
            list_sources: config.list_sources,
            smoke: match config.smoke {
                Some(s) => Some((s.source_id@, duration_nanos(s.duration))),
                None => None,
            },
        },
    }
}

pub open spec fn parse_result_view(r: Result<ParsedCommand, String>) -> Result<
    CommandView,
    Seq<char>,
> {
    match r {
        Ok(c) => Ok(command_view(c)),
        Err(m) => Err(m@),
    }
}

/// Reads `--smoke-seconds`: a whole number from 1 to 120.
fn parse_smoke_seconds(value: &str) -> (r: Option<u64>)
    ensures
        r is Some <==> valid_smoke_seconds(value@),
        r matches Some(n) ==> unsigned_decimal(value@) == Some(n as nat),
{
    let chars = chars_of(value);
    let ghost s = value@;
    let start: usize = if chars.len() > 0 && chars[0] == '+' {
        1
    } else {
        0
    };
    let ghost digits = unsigned_digits(s);
    assert(digits =~= s.subrange(start as int, s.len() as int));
    if start >= chars.len() {
        return None;
    }
    // The value read so far, or 121 once it exceeds 120.
    let mut v: u64 = 0;
    let mut k: usize = start;
    while k < chars.len()
        invariant
            chars@ == s,
            s == value@,
            start <= k <= chars@.len(),
            start < chars@.len(),
            digits == s.subrange(start as int, s.len() as int),
            digits == unsigned_digits(s),
            forall|j: int| start <= j < k ==> is_ascii_digit(#[trigger] s[j]),
            digits_value(s.subrange(start as int, k as int)) <= 120 ==> v == digits_value(
                s.subrange(start as int, k as int),
            ),
            digits_value(s.subrange(start as int, k as int)) > 120 ==> v == 121,
        decreases chars.len() - k,
    {
        let c = chars[k];
        if !('0' <= c && c <= '9') {
            assert(digits[k - start] == s[k as int]);
            assert(!is_ascii_digit(digits[k - start]));
            return None;
        }
        let ghost before = s.subrange(start as int, k as int);
        let ghost after = s.subrange(start as int, k + 1);
        assert(after.drop_last() =~= before);
        let d = (c as u32 - '0' as u32) as u64;
        assert(digits_value(after) == digits_value(before) * 10 + d);
        if v <= 120 {
            v = v * 10 + d;
            if v > 120 {
                v = 121;
            }
        }
        k += 1;
    }
    assert forall|i: int| 0 <= i < digits.len() implies is_ascii_digit(#[trigger] digits[i]) by {
        assert(digits[i] == s[start + i]);
    }
    assert(s.subrange(start as int, k as int) =~= digits);
    if 1 <= v && v <= 120 {
        Some(v)
    } else {
        None
    }
}

fn missing_value(option: &str) -> (m: String)
    ensures
        m@ == missing_value_error(option@),
{
    let mut m = String::new();
    push_text(&mut m, option);
    push_text(&mut m, " requires a value");
    m
}

/// Reads the command line, left to right. `arguments` holds each argument's
/// text, or `None` where it is not valid UTF-8; `env_model_path` says whether
/// `LCRT_MODEL_PATH` is set. Help wins as soon as it is read; otherwise the
/// first problem is reported.
pub fn parse_arguments(arguments: Vec<Option<String>>, env_model_path: bool) -> (r: Result<
    ParsedCommand,
    String,
>)
    ensures
        parse_result_view(r) == command_spec(arguments_view(arguments@), env_model_path),
{
    let ghost args = arguments_view(arguments@);
    let mut model_path: Option<ModelPath> = if env_model_path {
        Some(ModelPath::Environment)
    } else {
        None
    };
    let mut language: Option<String> = None;
    let mut list_sources = false;
    let mut smoke_source: Option<String> = None;
    let mut smoke_seconds: u64 = 10;
    let mut seconds_given = false;
    let mut i: usize = 0;
    while i < arguments.len()
        invariant
            i <= arguments@.len(),
            args == arguments_view(arguments@),
            args.len() == arguments@.len(),
            scan_arguments(args, 0, initial_scan(env_model_path)) == scan_arguments(
                args,
                i as nat,
                ArgScan {
                    model_path,
                    language: text_option_view(language),
                    list_sources,
                    smoke_source: text_option_view(smoke_source),
                    smoke_seconds: smoke_seconds as nat,
                    seconds_given,
                },
            ),
        decreases arguments.len() - i,
    {
        assert(args[i as int] == text_option_view(arguments@[i as int]));
        let argument: &str = match &arguments[i] {
            None => {
                return Err("arguments must be valid UTF-8".to_owned());
            },
            Some(a) => a.as_str(),
        };
        if same_text(argument, "--help") || same_text(argument, "-h") {
            return Ok(ParsedCommand::Help);
        } else if same_text(argument, "--model") {
            if i + 1 >= arguments.len() {
                return Err(missing_value(argument));
            }
            model_path = Some(ModelPath::Argument(i + 1));
            i += 2;
        } else if same_text(argument, "--language") {
            if i + 1 >= arguments.len() {
                return Err(missing_value(argument));
            }
            assert(args[i + 1] == text_option_view(arguments@[i + 1]));
            match &arguments[i + 1] {
                None => {
                    return Err("arguments must be valid UTF-8".to_owned());
                },
                Some(v) => {
                    language = Some(v.clone());
                },
            }
            i += 2;
        } else if same_text(argument, "--list-sources") {
            list_sources = true;
            i += 1;
        } else if same_text(argument, "--smoke-source") {
            if i + 1 >= arguments.len() {
                return Err(missing_value(argument));
            }
            assert(args[i + 1] == text_option_view(arguments@[i + 1]));
            match &arguments[i + 1] {
                None => {
                    return Err("arguments must be valid UTF-8".to_owned());
                },
                Some(v) => {
                    smoke_source = Some(v.clone());
                },
            }
            i += 2;
        } else if same_text(argument, "--smoke-seconds") {
            if i + 1 >= arguments.len() {
                return Err(missing_value(argument));
            }
            assert(args[i + 1] == text_option_view(arguments@[i + 1]));
            match &arguments[i + 1] {
                None => {
                    return Err("arguments must be valid UTF-8".to_owned());
                },
                Some(v) => match parse_smoke_seconds(v.as_str()) {
                    Some(n) => {
                        smoke_seconds = n;
                        seconds_given = true;
                    },
                    None => {
                        return Err("--smoke-seconds must be an integer from 1 to 120".to_owned());
                    },
                },
            }
            i += 2;
        } else {
            let mut m = String::new();
            push_text(&mut m, "unknown argument: ");
            push_text(&mut m, argument);
            return Err(m);
        }
    }
    if seconds_given && smoke_source.is_none() {
        return Err("--smoke-seconds requires --smoke-source".to_owned());
    }
    let smoke = match smoke_source {
        Some(source_id) => Some(SmokeConfig { source_id, duration: from_secs(smoke_seconds) }),
        None => None,
    };
    Ok(ParsedCommand::Run(AppConfig { model_path, language, list_sources, smoke }))
}

/// The usage text printed for `--help` and after an argument error.
pub fn usage() -> (u: &'static str)
    ensures
        u@ == usage_text(),
{
    "LCRT live captions\n\nUsage:\n  lcrt [--model PATH] [--language CODE]\n  lcrt --list-sources\n  lcrt --model PATH --smoke-source ID [--smoke-seconds 1..120]\n\nConfiguration:\n  LCRT_MODEL_PATH may be used instead of --model.\n  RUST_LOG controls structured diagnostic logging."
}

pub open spec fn usage_text() -> Seq<char> {
    "LCRT live captions\n\nUsage:\n  lcrt [--model PATH] [--language CODE]\n  lcrt --list-sources\n  lcrt --model PATH --smoke-source ID [--smoke-seconds 1..120]\n\nConfiguration:\n  LCRT_MODEL_PATH may be used instead of --model.\n  RUST_LOG controls structured diagnostic logging."@
}

/// The argument that asks for the list of capture sources.
pub open spec fn listing_flag() -> Seq<char> {
    "--list-sources"@
}

/// `--list-sources` is told apart from every other option.
proof fn lemma_listing_flag_distinct()
    ensures
        listing_flag() != "--help"@,
        listing_flag() != "-h"@,
        listing_flag() != "--model"@,
        listing_flag() != "--language"@,
        listing_flag() != "--smoke-source"@,
        listing_flag() != "--smoke-seconds"@,
{
    reveal_strlit("--list-sources");
    reveal_strlit("--help");
    reveal_strlit("-h");
    reveal_strlit("--model");
    reveal_strlit("--language");
    reveal_strlit("--smoke-source");
    reveal_strlit("--smoke-seconds");
    assert(listing_flag().len() == 14);
    assert("--help"@.len() == 6);
    assert("-h"@.len() == 2);
    assert("--model"@.len() == 7);
    assert("--language"@.len() == 10);
    assert("--smoke-seconds"@.len() == 15);
    assert(listing_flag()[2] != "--smoke-source"@[2]);
}

/// No later option turns listing off once it is on.
proof fn lemma_listing_stays_on(args: Seq<Option<Seq<char>>>, i: nat, acc: ArgScan)
    requires
        acc.list_sources,
    ensures
        scan_arguments(args, i, acc) matches ArgScanEnd::Done(a) ==> a.list_sources,
    decreases args.len() - i,
{
    if i < args.len() {
        if let Some(a) = args[i as int] {
            if i + 1 < args.len() {
                lemma_listing_stays_on(args, i + 2, scan_with_model(acc, i + 1 as int));
                if let Some(v) = args[i + 1 as int] {
                    lemma_listing_stays_on(args, i + 2, scan_with_language(acc, v));
                    lemma_listing_stays_on(args, i + 2, scan_with_source(acc, v));
                    if let Some(n) = unsigned_decimal(v) {
                        lemma_listing_stays_on(args, i + 2, scan_with_seconds(acc, n));
                    }
                }
            }
            lemma_listing_stays_on(args, i + 1, scan_with_listing(acc));
        }
    }
}

/// An argument read as the option `--list-sources` turns listing on for good:
/// whatever was read before it and whatever follows, a scan that completes
/// asks for the list of sources.
pub proof fn law_listing_option_is_kept(args: Seq<Option<Seq<char>>>, i: nat, acc: ArgScan)
    requires
        i < args.len(),
        args[i as int] == Some(listing_flag()),
    ensures
        scan_arguments(args, i, acc) matches ArgScanEnd::Done(a) ==> a.list_sources,
{
    lemma_listing_flag_distinct();
    lemma_listing_stays_on(args, i + 1, scan_with_listing(acc));
}

/// A scan that completes reads the same options from the same positions when
/// one more argument follows, and then goes on from the end.
proof fn lemma_scan_extends(args: Seq<Option<Seq<char>>>, extra: Option<Seq<char>>, i: nat, acc: ArgScan)
    requires
        i <= args.len(),
    ensures
        scan_arguments(args, i, acc) matches ArgScanEnd::Done(a) ==> scan_arguments(
            args.push(extra),
            i,
            acc,
        ) == scan_arguments(args.push(extra), args.len(), a),
    decreases args.len() - i,
{
    let longer = args.push(extra);
    if i < args.len() {
        assert(longer[i as int] == args[i as int]);
        if i + 1 < args.len() {
            assert(longer[i + 1 as int] == args[i + 1 as int]);
            lemma_scan_extends(args, extra, i + 2, scan_with_model(acc, i + 1 as int));
            if let Some(v) = args[i + 1 as int] {
                lemma_scan_extends(args, extra, i + 2, scan_with_language(acc, v));
                lemma_scan_extends(args, extra, i + 2, scan_with_source(acc, v));
                if let Some(n) = unsigned_decimal(v) {
                    lemma_scan_extends(args, extra, i + 2, scan_with_seconds(acc, n));
                }
            }
        }
        lemma_scan_extends(args, extra, i + 1, scan_with_listing(acc));
    }
}

/// Adding `--list-sources` to a command line that denotes a run asks for the
/// list of capture sources and changes nothing else the command says.
pub proof fn law_appended_listing_flag(args: Seq<Option<Seq<char>>>, env_model_path: bool)
    ensures
        command_spec(args, env_model_path) matches Ok(
            CommandView::Run { model_path, language, list_sources: _, smoke },
        ) ==> command_spec(args.push(Some(listing_flag())), env_model_path) == Ok::<
            CommandView,
            Seq<char>,
        >(CommandView::Run { model_path, language, list_sources: true, smoke }),
{
    lemma_listing_flag_distinct();
    let longer = args.push(Some(listing_flag()));
    lemma_scan_extends(args, Some(listing_flag()), 0, initial_scan(env_model_path));
    assert(longer[args.len() as int] == Some(listing_flag()));
    if let ArgScanEnd::Done(a) = scan_arguments(args, 0, initial_scan(env_model_path)) {
        assert(scan_arguments(longer, args.len() + 1, scan_with_listing(a)) == ArgScanEnd::Done(
            scan_with_listing(a),
        ));
    }
}

/// A command line that starts with `--list-sources` and denotes a run asks
/// for the list of capture sources.
pub proof fn law_leading_listing_flag(args: Seq<Option<Seq<char>>>, env_model_path: bool)
    requires
        args.len() > 0,
        args[0] == Some(listing_flag()),
    ensures
        command_spec(args, env_model_path) matches Ok(CommandView::Run { list_sources, .. })
            ==> list_sources,
{
    law_listing_option_is_kept(args, 0, initial_scan(env_model_path));
}

} // verus!
