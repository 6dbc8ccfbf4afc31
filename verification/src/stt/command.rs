//! Command line of the offline transcription and benchmark tool.
//!
//! Paths are handed on as positions in the argument list, because they are
//! used as given, whether or not they are valid UTF-8.

use vstd::prelude::*;

use crate::cli::{arguments_view, text_option_view};
use crate::stt::report::BenchmarkMode;
use crate::text::same_text;

verus! {

broadcast use vstd::string::group_string_axioms;

/// The usage text, also the message of most argument errors.
pub open spec fn transcribe_usage() -> Seq<char> {
    "usage:\n  lcrt-whisper-transcribe <model.bin> <audio.wav> [language]\n  lcrt-whisper-transcribe benchmark <paced|offline> <model.bin> <audio.wav> [language]"@
}

/// Message for a language argument that is not valid UTF-8.
pub open spec fn language_utf8_message() -> Seq<char> {
    "language must be UTF-8"@
}

/// What to transcribe: the positions of the model and WAV paths, and the
/// language, if one was given.
#[derive(Clone, Debug, PartialEq, Eq)]
pub struct TranscribeInput {
    pub model_path: usize,
    pub wav_path: usize,
    pub language: Option<String>,
}

/// What the tool is asked to do.
#[derive(Clone, Debug, PartialEq, Eq)]
pub enum TranscribeCommand {
    /// Transcribe a WAV file and print its caption updates.
    Transcribe(TranscribeInput),
    /// Replay a WAV file and report timing.
    Benchmark(BenchmarkMode, TranscribeInput),
}

/// The input whose model path is at `first`: the WAV path follows it, then
/// an optional UTF-8 language, and nothing else.
pub open spec fn input_spec(args: Seq<Option<Seq<char>>>, first: int) -> Result<
    (int, int, Option<Seq<char>>),
    Seq<char>,
> {
    if args.len() <= first + 1 {
        Err(transcribe_usage())
    } else if args.len() <= first + 2 {
        Ok((first, first + 1, None))
    } else if args[first + 2] is None {
        Err(language_utf8_message())
    } else if args.len() > first + 3 {
        Err(transcribe_usage())
    } else {
        Ok((first, first + 1, args[first + 2]))
    }
}

/// The command the arguments denote, as positions and texts, or the error
/// message.
pub open spec fn transcribe_command_spec(args: Seq<Option<Seq<char>>>) -> Result<
    (Option<BenchmarkMode>, (int, int, Option<Seq<char>>)),
    Seq<char>,
> {
    if args.len() == 0 {
        Err(transcribe_usage())
    } else if args[0] == Some("benchmark"@) {
        let mode = if args.len() > 1 && args[1] == Some("paced"@) {
            Some(BenchmarkMode::Paced)
        } else if args.len() > 1 && args[1] == Some("offline"@) {
            Some(BenchmarkMode::Offline)
        } else {
            None
        };
        match mode {
            None => Err(transcribe_usage()),
            Some(m) => if args.len() <= 2 {
                Err(transcribe_usage())
            } else {
                match input_spec(args, 2) {
                    Ok(input) => Ok((Some(m), input)),
                    Err(e) => Err(e),
                }
            },
        }
    } else {
        match input_spec(args, 0) {
            Ok(input) => Ok((None, input)),
            Err(e) => Err(e),
        }
    }
}

pub open spec fn input_view(i: TranscribeInput) -> (int, int, Option<Seq<char>>) {
    (i.model_path as int, i.wav_path as int, text_option_view(i.language))
}

pub open spec fn transcribe_result_view(r: Result<TranscribeCommand, String>) -> Result<
    (Option<BenchmarkMode>, (int, int, Option<Seq<char>>)),
    Seq<char>,
> {
    match r {
        Ok(TranscribeCommand::Transcribe(i)) => Ok((None, input_view(i))),
        Ok(TranscribeCommand::Benchmark(m, i)) => Ok((Some(m), input_view(i))),
        Err(m) => Err(m@),
    }
}

/// The usage text.
pub fn transcribe_usage_text() -> (u: &'static str)
    ensures
        u@ == transcribe_usage(),
{
    "usage:\n  lcrt-whisper-transcribe <model.bin> <audio.wav> [language]\n  lcrt-whisper-transcribe benchmark <paced|offline> <model.bin> <audio.wav> [language]"
}

fn is_text(argument: &Option<String>, expected: &str) -> (r: bool)
    ensures
        r == (text_option_view(*argument) == Some(expected@)),
{
    match argument {
        Some(a) => same_text(a.as_str(), expected),
        None => false,
    }
}

fn parse_input(arguments: &Vec<Option<String>>, first: usize) -> (r: Result<TranscribeInput, String>)
    requires
        first + 1 < arguments@.len(),
    ensures
        match (r, input_spec(arguments_view(arguments@), first as int)) {
            (Ok(i), Ok(s)) => input_view(i) == s,
            (Err(m), Err(s)) => m@ == s,
            _ => false,
        },
{
    let ghost args = arguments_view(arguments@);
    if arguments.len() <= first + 2 {
        return Ok(TranscribeInput { model_path: first, wav_path: first + 1, language: None });
    }
    assert(args[first + 2] == text_option_view(arguments@[first + 2]));
    let language = match &arguments[first + 2] {
        Some(l) => l.clone(),
        None => {
            return Err("language must be UTF-8".to_owned());
        },
    };
    if arguments.len() > first + 3 {
        return Err(transcribe_usage_text().to_owned());
    }
    Ok(TranscribeInput { model_path: first, wav_path: first + 1, language: Some(language) })
}

/// Reads the tool's arguments: `<model.bin> <audio.wav> [language]`, or
/// `benchmark <paced|offline>` followed by the same. Each argument is its
/// text, or `None` where it is not valid UTF-8.
pub fn parse_transcribe_arguments(arguments: Vec<Option<String>>) -> (r: Result<
    TranscribeCommand,
    String,
>)
    ensures
        transcribe_result_view(r) == transcribe_command_spec(arguments_view(arguments@)),
{
    let ghost args = arguments_view(arguments@);
    if arguments.len() == 0 {
        return Err(transcribe_usage_text().to_owned());
    }
    assert(args[0] == text_option_view(arguments@[0]));
    if is_text(&arguments[0], "benchmark") {
        let mode = if arguments.len() > 1 && is_text(&arguments[1], "paced") {
            BenchmarkMode::Paced
        } else if arguments.len() > 1 && is_text(&arguments[1], "offline") {
            BenchmarkMode::Offline
        } else {
            return Err(transcribe_usage_text().to_owned());
        };
        assert(args[1] == text_option_view(arguments@[1]));
        if arguments.len() <= 3 {
            return Err(transcribe_usage_text().to_owned());
        }
        match parse_input(&arguments, 2) {
            Ok(input) => Ok(TranscribeCommand::Benchmark(mode, input)),
            Err(e) => Err(e),
        }
    } else {
        if arguments.len() <= 1 {
            return Err(transcribe_usage_text().to_owned());
        }
        match parse_input(&arguments, 0) {
            Ok(input) => Ok(TranscribeCommand::Transcribe(input)),
            Err(e) => Err(e),
        }
    }
}

} // verus!
