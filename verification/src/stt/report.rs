//! Offline diagnostic helpers: replay pacing, latency metrics over transcript
//! updates, and JSON string escaping for the benchmark report.

use std::time::Duration;
use vstd::prelude::*;

use crate::caption::CaptionStatus;
use crate::text::{chars_of, push_char};
use crate::transcription::TranscriptUpdate;

verus! {

broadcast use vstd::string::group_string_axioms;

/// Milliseconds of audio in one paced replay chunk.
pub const PACED_CHUNK_MILLIS: u64 = 20;

/// Frames in one paced replay chunk at `sample_rate` hertz, at least one.
pub fn paced_chunk_frames(sample_rate: u32) -> (frames: usize)
    ensures
        frames == (if sample_rate as nat * 20 / 1000 >= 1 {
            sample_rate as nat * 20 / 1000
        } else {
            1
        }),
{
    let frames = (sample_rate as u64) * PACED_CHUNK_MILLIS / 1_000;
    let frames = if frames >= 1 {
        frames
    } else {
        1
    };
    frames as usize
}

/// How a replay was driven.
#[derive(Clone, Copy, Debug, PartialEq, Eq, Structural)]
pub enum BenchmarkMode {
    /// Audio delivered at real-time pace.
    Paced,
    /// Audio delivered as fast as transcription accepts it.
    Offline,
}

impl BenchmarkMode {
    /// The mode's name in reports.
    pub fn name(self) -> (s: &'static str)
        ensures
            self == BenchmarkMode::Paced ==> s@ == "paced"@,
            self == BenchmarkMode::Offline ==> s@ == "offline"@,
    {
        match self {
            BenchmarkMode::Paced => "paced",
            BenchmarkMode::Offline => "offline",
        }
    }
}

/// Latency metrics over the transcript updates of one replay.
#[derive(Debug)]
pub struct TranscriptMetrics {
    pub first_partial: Option<Duration>,
    pub first_final: Option<Duration>,
    pub latest_text: String,
    pub update_count: usize,
}

impl Default for TranscriptMetrics {
    fn default() -> (m: Self)
        ensures
            m.first_partial is None,
            m.first_final is None,
            m.latest_text@ == Seq::<char>::empty(),
            m.update_count == 0,
    {
        Self { first_partial: None, first_final: None, latest_text: String::new(), update_count: 0 }
    }
}

/// Whether any update has the given status.
pub open spec fn any_with_status(updates: Seq<TranscriptUpdate>, status: CaptionStatus) -> bool {
    exists|i: int| 0 <= i < updates.len() && (#[trigger] updates[i]).status_view() == status
}

impl TranscriptMetrics {
    /// Records a batch of updates observed `elapsed` after the replay began:
    /// the first partial and first final times are set once, the latest text
    /// follows the last update, and every update is counted.
    pub fn observe(&mut self, updates: Vec<TranscriptUpdate>, elapsed: Duration)
        requires
            old(self).update_count + updates@.len() <= usize::MAX,
        ensures
            final(self).first_partial == (if old(self).first_partial is Some {
                old(self).first_partial
            } else if any_with_status(updates@, CaptionStatus::Partial) {
                Some(elapsed)
            } else {
                None
            }),
            final(self).first_final == (if old(self).first_final is Some {
                old(self).first_final
            } else if any_with_status(updates@, CaptionStatus::Final) {
                Some(elapsed)
            } else {
                None
            }),
            final(self).latest_text@ == (if updates@.len() > 0 {
                updates@.last().text_view()
            } else {
                old(self).latest_text@
            }),
            final(self).update_count == old(self).update_count + updates@.len(),
    {
        let ghost start_partial = self.first_partial;
        let ghost start_final = self.first_final;
        let ghost start_text = self.latest_text@;
        let ghost start_count = self.update_count;
        let mut i: usize = 0;
        while i < updates.len()
            invariant
                i <= updates@.len(),
                start_count + updates@.len() <= usize::MAX,
                self.update_count == start_count + i,
                self.first_partial == (if start_partial is Some {
                    start_partial
                } else if any_with_status(updates@.take(i as int), CaptionStatus::Partial) {
                    Some(elapsed)
                } else {
                    None
                }),
                self.first_final == (if start_final is Some {
                    start_final
                } else if any_with_status(updates@.take(i as int), CaptionStatus::Final) {
                    Some(elapsed)
                } else {
                    None
                }),
                self.latest_text@ == (if i > 0 {
                    updates@[i - 1].text_view()
                } else {
                    start_text
                }),
            decreases updates.len() - i,
        {
            let update = &updates[i];
            let status = update.status();
            proof {
                let before = updates@.take(i as int);
                let after = updates@.take(i + 1);
                assert(after[i as int] == updates@[i as int]);
                assert forall|s: CaptionStatus| any_with_status(after, s) == (any_with_status(
                    before,
                    s,
                ) || updates@[i as int].status_view() == s) by {
                    if any_with_status(after, s) && !any_with_status(before, s) {
                        let k = choose|k: int|
                            0 <= k < after.len() && (#[trigger] after[k]).status_view() == s;
                        if k < i {
                            assert(before[k] == after[k]);
                        }
                    }
                    if any_with_status(before, s) {
                        let k = choose|k: int|
                            0 <= k < before.len() && (#[trigger] before[k]).status_view() == s;
                        assert(after[k] == before[k]);
                    }
                }
            }
            match status {
                CaptionStatus::Partial => {
                    if self.first_partial.is_none() {
                        self.first_partial = Some(elapsed);
                    }
                },
                CaptionStatus::Final => {
                    if self.first_final.is_none() {
                        self.first_final = Some(elapsed);
                    }
                },
            }
            self.latest_text = update.text().to_owned();
            self.update_count = self.update_count + 1;
            i += 1;
        }
        assert(updates@.take(i as int) =~= updates@);
    }
}

/// The lowercase hexadecimal digit of a value below sixteen.
pub open spec fn hex_digit(d: nat) -> char {
    if d < 10 {
        crate::text::digit_char(d)
    } else if d == 10 {
        'a'
    } else if d == 11 {
        'b'
    } else if d == 12 {
        'c'
    } else if d == 13 {
        'd'
    } else if d == 14 {
        'e'
    } else {
        'f'
    }
}

/// How one character appears inside a JSON string: quote, backslash and the
/// control characters are escaped (the short forms where JSON has one,
/// `\u00XX` otherwise); every other character stands for itself.
pub open spec fn json_escaped_char(c: char) -> Seq<char> {
    let u = c as u32;
    if c == '"' {
        seq!['\\', '"']
    } else if c == '\\' {
        seq!['\\', '\\']
    } else if u == 0x08 {
        seq!['\\', 'b']
    } else if u == 0x0c {
        seq!['\\', 'f']
    } else if c == '\n' {
        seq!['\\', 'n']
    } else if c == '\r' {
        seq!['\\', 'r']
    } else if c == '\t' {
        seq!['\\', 't']
    } else if u <= 0x1f {
        seq!['\\', 'u', '0', '0', hex_digit((u / 16) as nat), hex_digit((u % 16) as nat)]
    } else {
        seq![c]
    }
}

/// JSON string content of a text.
pub open spec fn json_escaped(s: Seq<char>) -> Seq<char>
    decreases s.len(),
{
    if s.len() == 0 {
        seq![]
    } else {
        json_escaped(s.drop_last()) + json_escaped_char(s.last())
    }
}

fn hex_digit_of(d: u32) -> (c: char)
    requires
        d < 16,
    ensures
        c == hex_digit(d as nat),
{
    if d == 0 {
        '0'
    } else if d == 1 {
        '1'
    } else if d == 2 {
        '2'
    } else if d == 3 {
        '3'
    } else if d == 4 {
        '4'
    } else if d == 5 {
        '5'
    } else if d == 6 {
        '6'
    } else if d == 7 {
        '7'
    } else if d == 8 {
        '8'
    } else if d == 9 {
        '9'
    } else if d == 10 {
        'a'
    } else if d == 11 {
        'b'
    } else if d == 12 {
        'c'
    } else if d == 13 {
        'd'
    } else if d == 14 {
        'e'
    } else {
        'f'
    }
}

/// Appends the JSON string form of one character.
fn push_escaped(out: &mut String, c: char)
    ensures
        final(out)@ == old(out)@ + json_escaped_char(c),
{
    let u = c as u32;
    if c == '"' {
        push_char(out, '\\');
        push_char(out, '"');
    } else if c == '\\' {
        push_char(out, '\\');
        push_char(out, '\\');
    } else if u == 0x08 {
        push_char(out, '\\');
        push_char(out, 'b');
    } else if u == 0x0c {
        push_char(out, '\\');
        push_char(out, 'f');
    } else if c == '\n' {
        push_char(out, '\\');
        push_char(out, 'n');
    } else if c == '\r' {
        push_char(out, '\\');
        push_char(out, 'r');
    } else if c == '\t' {
        push_char(out, '\\');
        push_char(out, 't');
    } else if u <= 0x1f {
        push_char(out, '\\');
        push_char(out, 'u');
        push_char(out, '0');
        push_char(out, '0');
        push_char(out, hex_digit_of(u / 16));
        push_char(out, hex_digit_of(u % 16));
    } else {
        push_char(out, c);
    }
    assert(final(out)@ =~= old(out)@ + json_escaped_char(c));
}

/// Escapes a transcript as JSON string content.
pub fn escape_json(value: &str) -> (escaped: String)
    ensures
        escaped@ == json_escaped(value@),
{
    let chars = chars_of(value);
    let mut escaped = String::new();
    let mut i: usize = 0;
    while i < chars.len()
        invariant
            chars@ == value@,
            i <= chars@.len(),
            escaped@ == json_escaped(chars@.take(i as int)),
        decreases chars.len() - i,
    {
        let ghost before = chars@.take(i as int);
        push_escaped(&mut escaped, chars[i]);
        i += 1;
        assert(chars@.take(i as int).drop_last() =~= before);
    }
    assert(chars@.take(i as int) =~= chars@);
    escaped
}

} // verus!
