//! Which WAV files the offline transcription utility accepts: signed 16-bit
//! PCM or 32-bit float, with a sample rate and channels, and whole frames of
//! at least one sample.

use vstd::prelude::*;

use crate::text::{decimal, push_decimal, push_text};

verus! {

broadcast use vstd::string::group_string_axioms;

/// A sample encoding the utility reads.
#[derive(Clone, Copy, Debug, PartialEq, Eq, Structural)]
pub enum WavEncoding {
    /// Signed 16-bit integers.
    Pcm16,
    /// 32-bit floats.
    Float32,
}

pub open spec fn zero_format_message() -> Seq<char> {
    "WAV sample rate and channel count must be greater than zero"@
}

/// The name of a sample format, as the WAV reader's `Debug` shows it.
pub open spec fn sample_format_name(is_float: bool) -> Seq<char> {
    if is_float {
        "Float"@
    } else {
        "Int"@
    }
}

pub open spec fn unsupported_encoding_message(is_float: bool, bits_per_sample: u16) -> Seq<char> {
    "unsupported WAV encoding: "@ + sample_format_name(is_float) + "/"@ + decimal(
        bits_per_sample as nat,
    ) + "-bit; use signed 16-bit PCM or 32-bit float"@
}

/// The encoding of a WAV header's format, or why it is refused: a zero
/// sample rate or channel count first, then any encoding but signed 16-bit
/// integers and 32-bit floats.
pub open spec fn wav_encoding_spec(sample_rate: u32, channels: u16, is_float: bool, bits_per_sample: u16) -> Result<
    WavEncoding,
    Seq<char>,
> {
    if sample_rate == 0 || channels == 0 {
        Err(zero_format_message())
    } else if !is_float && bits_per_sample == 16 {
        Ok(WavEncoding::Pcm16)
    } else if is_float && bits_per_sample == 32 {
        Ok(WavEncoding::Float32)
    } else {
        Err(unsupported_encoding_message(is_float, bits_per_sample))
    }
}

/// Checks a WAV header's format: `is_float` tells float samples from
/// integer ones.
pub fn wav_encoding(sample_rate: u32, channels: u16, is_float: bool, bits_per_sample: u16) -> (r:
    Result<WavEncoding, String>)
    ensures
        match (r, wav_encoding_spec(sample_rate, channels, is_float, bits_per_sample)) {
            (Ok(e), Ok(f)) => e == f,
            (Err(m), Err(n)) => m@ == n,
            _ => false,
        },
{
    if sample_rate == 0 || channels == 0 {
        return Err("WAV sample rate and channel count must be greater than zero".to_owned());
    }
    if !is_float && bits_per_sample == 16 {
        return Ok(WavEncoding::Pcm16);
    }
    if is_float && bits_per_sample == 32 {
        return Ok(WavEncoding::Float32);
    }
    let mut m = String::new();
    push_text(&mut m, "unsupported WAV encoding: ");
    if is_float {
        push_text(&mut m, "Float");
    } else {
        push_text(&mut m, "Int");
    }
    push_text(&mut m, "/");
    push_decimal(&mut m, bits_per_sample as u64);
    push_text(&mut m, "-bit; use signed 16-bit PCM or 32-bit float");
    Err(m)
}

pub open spec fn no_samples_message() -> Seq<char> {
    "WAV contains no audio samples"@
}

pub open spec fn incomplete_frame_message() -> Seq<char> {
    "WAV contains an incomplete interleaved audio frame"@
}

/// Checks that a file's samples are some whole frames: at least one sample,
/// and a multiple of the channel count.
pub fn wav_frames_check(sample_count: usize, channels: u16) -> (r: Result<(), String>)
    requires
        channels > 0,
    ensures
        sample_count == 0 ==> (r matches Err(m) && m@ == no_samples_message()),
        sample_count > 0 && (sample_count as int) % (channels as int) != 0 ==> (r matches Err(m) && m@
            == incomplete_frame_message()),
        sample_count > 0 && (sample_count as int) % (channels as int) == 0 ==> r is Ok,
{
    if sample_count == 0 {
        return Err("WAV contains no audio samples".to_owned());
    }
    if sample_count % (channels as usize) != 0 {
        return Err("WAV contains an incomplete interleaved audio frame".to_owned());
    }
    Ok(())
}

} // verus!
