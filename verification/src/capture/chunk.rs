//! Layout and decoding of PipeWire buffer chunks into PCM.

use vstd::prelude::*;

use crate::audio::{chunk_check, chunk_error_message, AudioChunk};
use crate::capture::error::PipeWireError;
use crate::text::{decimal, push_decimal, push_text};

verus! {

broadcast use vstd::string::group_string_axioms;

/// `SPA_CHUNK_FLAG_CORRUPTED`: the chunk's data is corrupted.
pub const CHUNK_FLAG_CORRUPTED: i32 = 1;

/// `SPA_CHUNK_FLAG_EMPTY`: the chunk carries no data; its size is a duration
/// of neutral PCM.
pub const SPA_CHUNK_FLAG_EMPTY: i32 = 1 << 1;

/// Bytes in one F32 sample.
pub const F32_SAMPLE_BYTES: usize = 4;

/// How a dequeued buffer chunk is to be read.
#[derive(Clone, Copy, Debug, PartialEq, Eq, Structural)]
pub enum ChunkLayout {
    /// Dropped: PipeWire marked its data corrupted.
    Corrupted,
    /// Nothing to read.
    NoMedia,
    /// Neutral PCM of this many bytes; the backing bytes are not read.
    Silence { byte_len: usize },
    /// PCM bytes read from a ring position of the backing buffer.
    Payload { start: usize, byte_len: usize },
}

/// Message for a chunk with media but no backing bytes.
pub open spec fn empty_backing_message() -> Seq<char> {
    "chunk contains media but its maximum backing size is zero"@
}

/// Layout of a chunk: corrupted chunks are dropped; an empty size means no
/// media; otherwise the size is clamped to the backing size and either marks
/// silence or locates payload at `offset` modulo the backing size.
pub open spec fn chunk_layout_spec(max_size: usize, offset: u32, size: u32, flags: i32) -> Result<
    ChunkLayout,
    Seq<char>,
> {
    if flags & CHUNK_FLAG_CORRUPTED != 0 {
        Ok(ChunkLayout::Corrupted)
    } else if size == 0 {
        Ok(ChunkLayout::NoMedia)
    } else if max_size == 0 {
        Err(empty_backing_message())
    } else {
        let clamped = if (size as int) < (max_size as int) {
            size as usize
        } else {
            max_size
        };
        if flags & SPA_CHUNK_FLAG_EMPTY != 0 {
            Ok(ChunkLayout::Silence { byte_len: clamped })
        } else {
            Ok(ChunkLayout::Payload { start: ((offset as int) % (max_size as int)) as usize, byte_len: clamped })
        }
    }
}

/// Classifies a dequeued chunk from its backing size, offset, size and flags.
pub fn chunk_layout(max_size: usize, offset: u32, size: u32, flags: i32) -> (r: Result<
    ChunkLayout,
    String,
>)
    ensures
        match (r, chunk_layout_spec(max_size, offset, size, flags)) {
            (Ok(a), Ok(b)) => a == b,
            (Err(a), Err(b)) => a@ == b,
            _ => false,
        },
{
    if flags & CHUNK_FLAG_CORRUPTED != 0 {
        return Ok(ChunkLayout::Corrupted);
    }
    if size == 0 {
        return Ok(ChunkLayout::NoMedia);
    }
    if max_size == 0 {
        return Err("chunk contains media but its maximum backing size is zero".to_owned());
    }
    let size = size as usize;
    let clamped = if size < max_size {
        size
    } else {
        max_size
    };
    if flags & SPA_CHUNK_FLAG_EMPTY != 0 {
        return Ok(ChunkLayout::Silence { byte_len: clamped });
    }
    let offset = offset as usize;
    Ok(ChunkLayout::Payload { start: offset % max_size, byte_len: clamped })
}

/// Message for a backing slice whose length disagrees with its advertised size.
pub open spec fn backing_mismatch_message(actual: nat, advertised: nat) -> Seq<char> {
    "mapped backing length "@ + decimal(actual) + " does not match advertised maximum size "@
        + decimal(advertised)
}

/// Message for a range that does not fit its backing buffer.
pub open spec fn inconsistent_range_message() -> Seq<char> {
    "normalized chunk range is inconsistent with its backing buffer"@
}

/// Message for a range whose end overflows.
pub open spec fn overflowed_range_message() -> Seq<char> {
    "normalized chunk range overflowed"@
}

/// The `byte_len` bytes of a ring buffer starting at `start`, wrapping at its
/// end.
pub open spec fn ring_bytes(backing: Seq<u8>, start: nat, byte_len: nat) -> Seq<u8> {
    Seq::new(byte_len, |i: int| backing[(start + i) % (backing.len() as int)])
}

/// The bytes of a chunk at its ring position, or why they cannot be read:
/// the backing must have its advertised size and hold the range.
pub open spec fn chunk_bytes_spec(backing: Seq<u8>, max_size: usize, start: usize, byte_len: usize) -> Result<
    Seq<u8>,
    Seq<char>,
> {
    if backing.len() != max_size {
        Err(backing_mismatch_message(backing.len(), max_size as nat))
    } else if max_size == 0 || start >= max_size || byte_len > max_size {
        Err(inconsistent_range_message())
    } else if start + byte_len > usize::MAX {
        Err(overflowed_range_message())
    } else {
        Ok(ring_bytes(backing, start as nat, byte_len as nat))
    }
}

pub open spec fn bytes_result_view(r: Result<Vec<u8>, String>) -> Result<Seq<u8>, Seq<char>> {
    match r {
        Ok(bytes) => Ok(bytes@),
        Err(m) => Err(m@),
    }
}

/// Reads a chunk's bytes from its ring position in the backing buffer.
pub fn normalized_chunk_bytes(backing: &[u8], max_size: usize, start: usize, byte_len: usize) -> (r: Result<
    Vec<u8>,
    String,
>)
    ensures
        bytes_result_view(r) == chunk_bytes_spec(backing@, max_size, start, byte_len),
{
    if backing.len() != max_size {
        let mut m = String::new();
        push_text(&mut m, "mapped backing length ");
        push_decimal(&mut m, backing.len() as u64);
        push_text(&mut m, " does not match advertised maximum size ");
        push_decimal(&mut m, max_size as u64);
        return Err(m);
    }
    if max_size == 0 || start >= max_size || byte_len > max_size {
        return Err("normalized chunk range is inconsistent with its backing buffer".to_owned());
    }
    if byte_len > usize::MAX - start {
        return Err("normalized chunk range overflowed".to_owned());
    }
    let mut bytes: Vec<u8> = Vec::new();
    let mut i: usize = 0;
    while i < byte_len
        invariant
            backing@.len() == max_size,
            0 < max_size,
            start < max_size,
            byte_len <= max_size,
            i <= byte_len,
            bytes@ == ring_bytes(backing@, start as nat, byte_len as nat).take(i as int),
        decreases byte_len - i,
    {
        let position = if i < max_size - start {
            start + i
        } else {
            i - (max_size - start)
        };
        assert(position == (start + i) % (max_size as int)) by {
            if i < max_size - start {
                vstd::arithmetic::div_mod::lemma_small_mod((start + i) as nat, max_size as nat);
            } else {
                vstd::arithmetic::div_mod::lemma_mod_sub_multiples_vanish((start + i) as int, max_size as int);
                vstd::arithmetic::div_mod::lemma_small_mod((start + i - max_size) as nat, max_size as nat);
            }
        }
        bytes.push(backing[position]);
        i += 1;
        assert(bytes@ =~= ring_bytes(backing@, start as nat, byte_len as nat).take(i as int));
    }
    assert(ring_bytes(backing@, start as nat, byte_len as nat).take(i as int) =~= ring_bytes(
        backing@,
        start as nat,
        byte_len as nat,
    ));
    Ok(bytes)
}

/// The stream format PipeWire negotiated.
#[derive(Clone, Copy, Debug, PartialEq, Eq, Structural)]
pub struct NegotiatedFormat {
    pub sample_rate_hz: u32,
    pub channels: u16,
}

/// A negotiated format must be raw audio: of media type audio and subtype
/// raw.
pub fn raw_audio_check(is_audio: bool, is_raw: bool) -> (r: Result<(), PipeWireError>)
    ensures
        is_audio && is_raw ==> r is Ok,
        !(is_audio && is_raw) ==> (r matches Err(PipeWireError::InvalidNegotiatedFormat(m)) && m@
            == "expected raw audio"@),
{
    if is_audio && is_raw {
        Ok(())
    } else {
        Err(PipeWireError::InvalidNegotiatedFormat("expected raw audio".to_owned()))
    }
}

/// The stream format of a negotiated raw-audio format: only F32LE is read,
/// and its sample rate and channel count must be non-zero, the count small
/// enough for a 16-bit field.
pub fn negotiated_format(is_f32le: bool, rate: u32, channels: u32) -> (r: Result<
    NegotiatedFormat,
    PipeWireError,
>)
    ensures
        !is_f32le ==> (r matches Err(PipeWireError::InvalidNegotiatedFormat(m)) && m@
            == "only interleaved F32LE PCM is supported"@),
        is_f32le && !(0 < channels <= u16::MAX && rate > 0) ==> (r matches Err(
            PipeWireError::InvalidNegotiatedFormat(m),
        ) && m@ == "channel count or sample rate was zero or too large"@),
        is_f32le && 0 < channels <= u16::MAX && rate > 0 ==> r == Ok::<
            NegotiatedFormat,
            PipeWireError,
        >(NegotiatedFormat { sample_rate_hz: rate, channels: channels as u16 }),
{
    if !is_f32le {
        return Err(
            PipeWireError::InvalidNegotiatedFormat("only interleaved F32LE PCM is supported".to_owned()),
        );
    }
    if channels == 0 || channels > 0xFFFF || rate == 0 {
        return Err(
            PipeWireError::InvalidNegotiatedFormat(
                "channel count or sample rate was zero or too large".to_owned(),
            ),
        );
    }
    Ok(NegotiatedFormat { sample_rate_hz: rate, channels: channels as u16 })
}

/// Message for an empty chunk whose size is not a whole number of samples.
pub open spec fn partial_silent_sample_message() -> Seq<char> {
    "PipeWire returned an EMPTY chunk with a partial F32 sample"@
}

/// Message for an empty chunk whose samples do not form whole frames.
pub open spec fn incomplete_silent_frames_message(samples: nat, channels: nat) -> Seq<char> {
    "PipeWire returned an EMPTY chunk whose "@ + decimal(samples)
        + " samples do not form complete "@ + decimal(channels) + "-channel frames"@
}

/// Whether `r` is what decoding was to give: a valid chunk in the
/// negotiated format holding exactly the expected samples, or the expected
/// error message.
pub open spec fn decoded_as(
    r: Result<AudioChunk, String>,
    format: NegotiatedFormat,
    expected: Result<Seq<u32>, Seq<char>>,
) -> bool {
    match expected {
        Ok(samples) => r matches Ok(chunk) && chunk.samples_view() == samples && chunk.rate_view()
            == format.sample_rate_hz && chunk.channels_view() == format.channels && chunk.wf(),
        Err(m) => r matches Err(x) && x@ == m,
    }
}

/// The neutral PCM an empty chunk of `byte_len` bytes stands for: that many
/// bytes of zero samples, which must form whole samples and whole frames.
pub open spec fn silence_spec(byte_len: usize, format: NegotiatedFormat) -> Result<
    Seq<u32>,
    Seq<char>,
> {
    let count = (byte_len / 4) as nat;
    let samples = Seq::new(count, |i: int| 0u32);
    if byte_len % 4 != 0 {
        Err(partial_silent_sample_message())
    } else if count % (format.channels as nat) != 0 {
        Err(incomplete_silent_frames_message(count, format.channels as nat))
    } else {
        match chunk_check(samples, format.sample_rate_hz, format.channels) {
            Ok(()) => Ok(samples),
            Err(e) => Err("PipeWire produced invalid silent PCM: "@ + chunk_error_message(e)),
        }
    }
}

/// Turns an empty chunk of `byte_len` bytes into that much neutral PCM
/// (zero samples).
pub fn decode_silence(byte_len: usize, format: NegotiatedFormat) -> (r: Result<AudioChunk, String>)
    requires
        format.channels > 0,
    ensures
        decoded_as(r, format, silence_spec(byte_len, format)),
{
    if byte_len % F32_SAMPLE_BYTES != 0 {
        return Err("PipeWire returned an EMPTY chunk with a partial F32 sample".to_owned());
    }
    let sample_count = byte_len / F32_SAMPLE_BYTES;
    let channels = format.channels as usize;
    if sample_count % channels != 0 {
        let mut m = String::new();
        push_text(&mut m, "PipeWire returned an EMPTY chunk whose ");
        push_decimal(&mut m, sample_count as u64);
        push_text(&mut m, " samples do not form complete ");
        push_decimal(&mut m, format.channels as u64);
        push_text(&mut m, "-channel frames");
        return Err(m);
    }
    let mut samples: Vec<u32> = Vec::new();
    let mut i: usize = 0;
    while i < sample_count
        invariant
            i <= sample_count,
            samples@ == Seq::new(i as nat, |j: int| 0u32),
        decreases sample_count - i,
    {
        samples.push(0);
        i += 1;
        assert(samples@ =~= Seq::new(i as nat, |j: int| 0u32));
    }
    match AudioChunk::new(samples, format.sample_rate_hz, format.channels) {
        Ok(chunk) => Ok(chunk),
        Err(e) => {
            let mut m = "PipeWire produced invalid silent PCM: ".to_owned();
            let detail = e.message();
            push_text(&mut m, detail.as_str());
            Err(m)
        },
    }
}

/// The bit pattern of a little-endian 32-bit word (`u32::from_le_bytes`),
/// which `f32::from_le_bytes` reinterprets as a sample.
pub open spec fn le_word(b0: u8, b1: u8, b2: u8, b3: u8) -> u32 {
    (b0 + 256 * b1 + 65536 * b2 + 16777216 * b3) as u32
}

/// The samples of F32LE bytes, as bit patterns.
pub open spec fn f32le_samples(bytes: Seq<u8>) -> Seq<u32> {
    Seq::new(
        bytes.len() / 4,
        |i: int| le_word(bytes[4 * i], bytes[4 * i + 1], bytes[4 * i + 2], bytes[4 * i + 3]),
    )
}

/// Message for bytes that are not a whole number of samples.
pub open spec fn partial_sample_message() -> Seq<char> {
    "PipeWire returned a partial F32 sample"@
}

/// The PCM that F32LE bytes hold, which must form whole samples and a
/// valid chunk.
pub open spec fn f32le_spec(bytes: Seq<u8>, format: NegotiatedFormat) -> Result<
    Seq<u32>,
    Seq<char>,
> {
    if bytes.len() % 4 != 0 {
        Err(partial_sample_message())
    } else {
        match chunk_check(f32le_samples(bytes), format.sample_rate_hz, format.channels) {
            Ok(()) => Ok(f32le_samples(bytes)),
            Err(e) => Err("PipeWire produced invalid PCM: "@ + chunk_error_message(e)),
        }
    }
}

/// Decodes interleaved little-endian F32 PCM.
pub fn decode_f32le(bytes: &[u8], format: NegotiatedFormat) -> (r: Result<AudioChunk, String>)
    ensures
        decoded_as(r, format, f32le_spec(bytes@, format)),
{
    if bytes.len() % F32_SAMPLE_BYTES != 0 {
        return Err("PipeWire returned a partial F32 sample".to_owned());
    }
    let total = bytes.len();
    let count = total / F32_SAMPLE_BYTES;
    let mut samples: Vec<u32> = Vec::new();
    let mut i: usize = 0;
    while i < count
        invariant
            count == bytes@.len() / 4,
            total == bytes@.len(),
            bytes@.len() % 4 == 0,
            i <= count,
            samples@ == f32le_samples(bytes@).take(i as int),
        decreases count - i,
    {
        assert(4 * i + 3 < bytes@.len()) by (nonlinear_arith)
            requires
                i < count,
                count == bytes@.len() / 4,
                bytes@.len() % 4 == 0,
        {
        }
        let base = 4 * i;
        let word = bytes[base] as u32 + 256 * (bytes[base + 1] as u32) + 65536 * (bytes[base
            + 2] as u32) + 16777216 * (bytes[base + 3] as u32);
        samples.push(word);
        i += 1;
        assert(samples@ =~= f32le_samples(bytes@).take(i as int));
    }
    assert(f32le_samples(bytes@).take(i as int) =~= f32le_samples(bytes@));
    match AudioChunk::new(samples, format.sample_rate_hz, format.channels) {
        Ok(chunk) => Ok(chunk),
        Err(e) => {
            let mut m = "PipeWire produced invalid PCM: ".to_owned();
            let detail = e.message();
            push_text(&mut m, detail.as_str());
            Err(m)
        },
    }
}

/// What one dequeued buffer chunk becomes.
#[derive(Debug)]
pub enum ChunkOutcome {
    /// Dropped and counted: PipeWire marked its data corrupted.
    Corrupted,
    /// It carried no media.
    NoMedia,
    /// PCM to queue for transcription.
    Audio(AudioChunk),
    /// The buffer contradicts its own metadata; capture cannot go on.
    Malformed(String),
}

/// Whether `r` is the outcome that decoding promised.
pub open spec fn outcome_decoded_as(
    r: ChunkOutcome,
    format: NegotiatedFormat,
    expected: Result<Seq<u32>, Seq<char>>,
) -> bool {
    match expected {
        Ok(samples) => r matches ChunkOutcome::Audio(chunk) && chunk.samples_view() == samples
            && chunk.rate_view() == format.sample_rate_hz && chunk.channels_view()
            == format.channels && chunk.wf(),
        Err(m) => r matches ChunkOutcome::Malformed(x) && x@ == m,
    }
}

fn outcome_of(r: Result<AudioChunk, String>) -> (o: ChunkOutcome)
    ensures
        r matches Ok(chunk) ==> o == ChunkOutcome::Audio(chunk),
        r matches Err(m) ==> o == ChunkOutcome::Malformed(m),
{
    match r {
        Ok(chunk) => ChunkOutcome::Audio(chunk),
        Err(m) => ChunkOutcome::Malformed(m),
    }
}

/// Decides what a dequeued chunk becomes, from the negotiated format, the
/// chunk's metadata and its mapped backing bytes, if any.
pub fn decode_chunk(
    format: NegotiatedFormat,
    max_size: usize,
    offset: u32,
    size: u32,
    flags: i32,
    backing: Option<&[u8]>,
) -> (r: ChunkOutcome)
    requires
        format.channels > 0,
    ensures
        match chunk_layout_spec(max_size, offset, size, flags) {
            Err(m) => r matches ChunkOutcome::Malformed(x) && x@ == m,
            Ok(ChunkLayout::Corrupted) => r is Corrupted,
            Ok(ChunkLayout::NoMedia) => r is NoMedia,
            Ok(ChunkLayout::Silence { byte_len }) => outcome_decoded_as(
                r,
                format,
                silence_spec(byte_len, format),
            ),
            Ok(ChunkLayout::Payload { start, byte_len }) => match backing {
                None => r matches ChunkOutcome::Malformed(x) && x@
                    == "mapped PCM data was unavailable"@,
                Some(b) => match chunk_bytes_spec(b@, max_size, start, byte_len) {
                    Err(m) => r matches ChunkOutcome::Malformed(x) && x@ == m,
                    Ok(bytes) => outcome_decoded_as(r, format, f32le_spec(bytes, format)),
                },
            },
        },
{
    let layout = match chunk_layout(max_size, offset, size, flags) {
        Ok(layout) => layout,
        Err(m) => {
            return ChunkOutcome::Malformed(m);
        },
    };
    match layout {
        ChunkLayout::Corrupted => ChunkOutcome::Corrupted,
        ChunkLayout::NoMedia => ChunkOutcome::NoMedia,
        ChunkLayout::Silence { byte_len } => outcome_of(decode_silence(byte_len, format)),
        ChunkLayout::Payload { start, byte_len } => {
            let backing = match backing {
                Some(b) => b,
                None => {
                    return ChunkOutcome::Malformed("mapped PCM data was unavailable".to_owned());
                },
            };
            match normalized_chunk_bytes(backing, max_size, start, byte_len) {
                Ok(bytes) => outcome_of(decode_f32le(bytes.as_slice(), format)),
                Err(m) => ChunkOutcome::Malformed(m),
            }
        },
    }
}

} // verus!
