//! Platform-independent audio input types and adapter boundary.
//!
//! PCM samples are carried as the IEEE-754 binary32 bit patterns of the
//! normalized `f32` values (`f32::to_bits`), so that chunk validation,
//! including the finiteness of every sample, is stated and checked exactly.

use std::time::Duration;
use vstd::prelude::*;

use crate::text::{decimal, push_decimal, push_text};

verus! {

/// The user-facing type of an audio source.
#[derive(Clone, Copy, Debug, PartialEq, Eq, Structural)]
pub enum AudioSourceKind {
    /// A microphone or other physical capture device.
    Microphone,
    /// A monitor that captures system/output audio.
    SystemOutput,
}

/// Stable information about an audio source exposed by a platform adapter.
#[derive(Clone, Debug, PartialEq, Eq)]
pub struct AudioSourceDescriptor {
    id: String,
    name: String,
    kind: AudioSourceKind,
}

impl AudioSourceDescriptor {
    /// Adapter-stable identifier.
    pub closed spec fn id_view(&self) -> Seq<char> {
        self.id@
    }

    /// Display name.
    pub closed spec fn name_view(&self) -> Seq<char> {
        self.name@
    }

    /// Source kind.
    pub closed spec fn kind_view(&self) -> AudioSourceKind {
        self.kind
    }

    /// Creates a source descriptor.
    pub fn new(id: &str, name: &str, kind: AudioSourceKind) -> (d: Self)
        ensures
            d.id_view() == id@,
            d.name_view() == name@,
            d.kind_view() == kind,
    {
        Self { id: id.to_owned(), name: name.to_owned(), kind }
    }

    /// Returns the platform adapter's stable source identifier.
    pub fn id(&self) -> (s: &str)
        ensures
            s@ == self.id_view(),
    {
        self.id.as_str()
    }

    /// Returns the display name.
    pub fn name(&self) -> (s: &str)
        ensures
            s@ == self.name_view(),
    {
        self.name.as_str()
    }

    /// Returns whether this source captures a microphone or system output.
    pub fn kind(&self) -> (k: AudioSourceKind)
        ensures
            k == self.kind_view(),
    {
        self.kind
    }

    /// A copy of this descriptor with the same identifier, name and kind.
    pub fn duplicate(&self) -> (d: Self)
        ensures
            d.id_view() == self.id_view(),
            d.name_view() == self.name_view(),
            d.kind_view() == self.kind_view(),
    {
        Self { id: self.id.clone(), name: self.name.clone(), kind: self.kind }
    }
}

/// What a descriptor holds: identifier, display name and kind.
pub open spec fn descriptor_view(d: AudioSourceDescriptor) -> (Seq<char>, Seq<char>, AudioSourceKind) {
    (d.id_view(), d.name_view(), d.kind_view())
}

/// Whether the binary32 value with these bits is finite (neither infinite nor
/// NaN): its exponent field is not all ones.
pub open spec fn is_finite_sample(bits: u32) -> bool {
    (bits >> 23u32) & 0xFFu32 != 0xFFu32
}

/// Decides [`is_finite_sample`].
pub fn sample_is_finite(bits: u32) -> (b: bool)
    ensures
        b == is_finite_sample(bits),
{
    (bits >> 23u32) & 0xFFu32 != 0xFFu32
}

/// A bounded chunk of interleaved normalized PCM samples.
#[derive(Clone, Debug, PartialEq, Eq)]
pub struct AudioChunk {
    samples: Vec<u32>,
    sample_rate_hz: u32,
    channels: u16,
}

/// Validation failure while creating an [`AudioChunk`].
#[derive(Clone, Copy, Debug, PartialEq, Eq, Structural)]
pub enum AudioChunkError {
    /// The chunk had no samples.
    Empty,
    /// The capture adapter reported a zero sample rate.
    ZeroSampleRate,
    /// The capture adapter reported zero channels.
    ZeroChannels,
    /// Interleaved samples did not contain complete channel frames.
    IncompleteFrame { sample_count: usize, channels: u16 },
    /// At least one PCM sample was NaN or infinite.
    NonFiniteSample,
}

/// Message of an [`AudioChunkError`] (what `to_string` shows).
pub open spec fn chunk_error_message(e: AudioChunkError) -> Seq<char> {
    match e {
        AudioChunkError::Empty => "audio chunk contains no samples"@,
        AudioChunkError::ZeroSampleRate => "audio sample rate must be non-zero"@,
        AudioChunkError::ZeroChannels => "audio channel count must be non-zero"@,
        AudioChunkError::IncompleteFrame { sample_count, channels } => decimal(sample_count as nat)
            + " interleaved samples do not form complete "@ + decimal(channels as nat)
            + "-channel frames"@,
        AudioChunkError::NonFiniteSample => "audio chunk contains a non-finite sample"@,
    }
}

impl AudioChunkError {
    /// The error message.
    pub fn message(&self) -> (s: String)
        ensures
            s@ == chunk_error_message(*self),
    {
        match self {
            AudioChunkError::Empty => "audio chunk contains no samples".to_owned(),
            AudioChunkError::ZeroSampleRate => "audio sample rate must be non-zero".to_owned(),
            AudioChunkError::ZeroChannels => "audio channel count must be non-zero".to_owned(),
            AudioChunkError::IncompleteFrame { sample_count, channels } => {
                let mut s = String::new();
                push_decimal(&mut s, *sample_count as u64);
                push_text(&mut s, " interleaved samples do not form complete ");
                push_decimal(&mut s, *channels as u64);
                push_text(&mut s, "-channel frames");
                s
            },
            AudioChunkError::NonFiniteSample => "audio chunk contains a non-finite sample".to_owned(),
        }
    }
}

/// The outcome of validating chunk contents: the first failed rule, in the
/// order empty, sample rate, channels, frame completeness, finiteness.
pub open spec fn chunk_check(samples: Seq<u32>, sample_rate_hz: u32, channels: u16) -> Result<
    (),
    AudioChunkError,
> {
    if samples.len() == 0 {
        Err(AudioChunkError::Empty)
    } else if sample_rate_hz == 0 {
        Err(AudioChunkError::ZeroSampleRate)
    } else if channels == 0 {
        Err(AudioChunkError::ZeroChannels)
    } else if samples.len() % (channels as nat) != 0 {
        Err(AudioChunkError::IncompleteFrame { sample_count: samples.len() as usize, channels })
    } else if exists|i: int| 0 <= i < samples.len() && !is_finite_sample(#[trigger] samples[i]) {
        Err(AudioChunkError::NonFiniteSample)
    } else {
        Ok(())
    }
}

impl AudioChunk {
    /// Sample bit patterns.
    pub closed spec fn samples_view(&self) -> Seq<u32> {
        self.samples@
    }

    /// Sample rate in hertz.
    pub closed spec fn rate_view(&self) -> u32 {
        self.sample_rate_hz
    }

    /// Interleaved channel count.
    pub closed spec fn channels_view(&self) -> u16 {
        self.channels
    }

    /// Every chunk passed validation.
    pub closed spec fn wf(&self) -> bool {
        chunk_check(self.samples@, self.sample_rate_hz, self.channels) is Ok
    }

    /// Creates a validated audio chunk from sample bit patterns
    /// (`f32::to_bits` of each normalized sample).
    pub fn new(samples: Vec<u32>, sample_rate_hz: u32, channels: u16) -> (r: Result<
        Self,
        AudioChunkError,
    >)
        ensures
            match chunk_check(samples@, sample_rate_hz, channels) {
                Ok(()) => r matches Ok(chunk) && chunk.samples_view() == samples@
                    && chunk.rate_view() == sample_rate_hz && chunk.channels_view() == channels
                    && chunk.wf(),
                Err(e) => r == Err::<Self, AudioChunkError>(e),
            },
    {
        if samples.len() == 0 {
            return Err(AudioChunkError::Empty);
        }
        if sample_rate_hz == 0 {
            return Err(AudioChunkError::ZeroSampleRate);
        }
        if channels == 0 {
            return Err(AudioChunkError::ZeroChannels);
        }
        if samples.len() % (channels as usize) != 0 {
            return Err(
                AudioChunkError::IncompleteFrame { sample_count: samples.len(), channels },
            );
        }
        let mut i: usize = 0;
        while i < samples.len()
            invariant
                i <= samples@.len(),
                samples@.len() > 0,
                sample_rate_hz != 0,
                channels != 0,
                samples@.len() % (channels as nat) == 0,
                forall|j: int| 0 <= j < i ==> is_finite_sample(#[trigger] samples@[j]),
            decreases samples.len() - i,
        {
            if !sample_is_finite(samples[i]) {
                assert(!is_finite_sample(samples@[i as int]));
                return Err(AudioChunkError::NonFiniteSample);
            }
            i += 1;
        }
        Ok(Self { samples, sample_rate_hz, channels })
    }

    /// Returns the interleaved sample bit patterns.
    pub fn samples(&self) -> (s: &[u32])
        ensures
            s@ == self.samples_view(),
    {
        self.samples.as_slice()
    }

    /// Returns the number of interleaved samples.
    pub fn sample_count(&self) -> (n: usize)
        ensures
            n == self.samples_view().len(),
    {
        self.samples.len()
    }

    /// Returns the sample rate reported by the capture adapter.
    pub fn sample_rate_hz(&self) -> (r: u32)
        ensures
            r == self.rate_view(),
    {
        self.sample_rate_hz
    }

    /// Returns the interleaved channel count.
    pub fn channels(&self) -> (c: u16)
        ensures
            c == self.channels_view(),
    {
        self.channels
    }

    /// Returns the number of sample frames in this chunk.
    pub fn frame_count(&self) -> (n: usize)
        requires
            self.wf(),
        ensures
            n == self.samples_view().len() / (self.channels_view() as nat),
    {
        self.samples.len() / (self.channels as usize)
    }
}

/// The result of one bounded wait for captured audio.
#[derive(Clone, Debug, PartialEq, Eq)]
pub enum AudioInputEvent {
    /// Captured PCM is ready for transcription.
    Chunk(AudioChunk),
    /// No audio became available before the requested timeout.
    Idle,
    /// The source ended cleanly and will produce no further samples.
    EndOfStream,
}

/// Actionable error reported by an audio adapter.
#[derive(Clone, Debug, PartialEq, Eq)]
pub struct AudioCaptureError {
    message: String,
}

impl AudioCaptureError {
    /// The error message.
    pub closed spec fn message_view(&self) -> Seq<char> {
        self.message@
    }

    /// Creates an adapter error with user-actionable context.
    pub fn new(message: &str) -> (e: Self)
        ensures
            e.message_view() == message@,
    {
        Self { message: message.to_owned() }
    }

    /// Returns the message (what `to_string` shows).
    pub fn message(&self) -> (s: &str)
        ensures
            s@ == self.message_view(),
    {
        self.message.as_str()
    }
}

/// A running platform audio capture session.
///
/// Implementations must bound internal buffering. `next_event` must return no
/// later than the supplied timeout so application shutdown stays responsive.
pub trait AudioCapture: Send {
    /// Returns the selected source.
    fn source(&self) -> &AudioSourceDescriptor;

    /// Waits for the next audio event for at most `timeout`.
    fn next_event(&mut self, timeout: Duration) -> Result<AudioInputEvent, AudioCaptureError>;

    /// Stops capture and releases platform resources.
    fn stop(&mut self) -> Result<(), AudioCaptureError>;
}

} // verus!
