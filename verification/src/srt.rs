use vstd::prelude::*;
use crate::fmt::{dec, zero_pad};

verus! {

/// One subtitle: its number, when it starts and ends (milliseconds), and its text.
pub struct SubtitleEntry {
    pub index: usize,
    pub start_ms: u32,
    pub end_ms: u32,
    pub text: String,
}

/// A synthesised clip: how long it plays (nanoseconds) and what it says.
pub struct Clip {
    pub duration_nanos: u128,
    pub text: String,
}

/// The largest span a `std::time::Duration` holds, in nanoseconds.
pub open spec fn max_duration_nanos() -> int {
    18446744073709551615int * 1000000000int + 999999999int
}

/// Sum of the first `n` clip durations.
pub open spec fn elapsed(ds: Seq<u128>, n: int) -> int
    decreases n,
{
    if n <= 0 || ds.len() == 0 {
        0
    } else if n > ds.len() {
        elapsed(ds, ds.len() as int)
    } else {
        elapsed(ds, n - 1) + ds[n - 1]
    }
}

/// A `Duration` of `nanos`, read with `as_millis()` and cast to `u32` as the
/// subtitle timestamps are.
pub open spec fn millis_u32(nanos: int) -> u32 {
    (nanos / 1000000) as u32
}

pub open spec fn clip_durations(clips: Seq<Clip>) -> Seq<u128> {
    clips.map_values(|c: Clip| c.duration_nanos)
}

/// The subtitles of clips played back to back: subtitle `i` starts when clip
/// `i` starts and ends when it ends, and carries the clip's text.
pub open spec fn timeline_entry(clips: Seq<Clip>, i: int) -> (usize, u32, u32, Seq<char>) {
    (
        i as usize,
        millis_u32(elapsed(clip_durations(clips), i)),
        millis_u32(elapsed(clip_durations(clips), i + 1)),
        clips[i].text@,
    )
}

impl SubtitleEntry {
    pub open spec fn view_tuple(self) -> (usize, u32, u32, Seq<char>) {
        (self.index, self.start_ms, self.end_ms, self.text@)
    }
}

proof fn lemma_elapsed_monotone(ds: Seq<u128>, a: int, b: int)
    requires
        0 <= a <= b <= ds.len(),
    ensures
        0 <= elapsed(ds, a) <= elapsed(ds, b),
    decreases b - a,
{
    if a < b {
        lemma_elapsed_monotone(ds, a, b - 1);
    } else {
        lemma_elapsed_nonneg(ds, a);
    }
}

proof fn lemma_elapsed_nonneg(ds: Seq<u128>, a: int)
    requires
        0 <= a <= ds.len(),
    ensures
        0 <= elapsed(ds, a),
    decreases a,
{
    if a > 0 {
        lemma_elapsed_nonneg(ds, a - 1);
    }
}

/// Lays the clips end to end and gives each its subtitle.
///
/// The clips must fit in one `Duration` together, as adding their durations
/// would otherwise overflow.
pub fn subtitle_timeline(clips: &Vec<Clip>) -> (out: Vec<SubtitleEntry>)
    requires
        elapsed(clip_durations(clips@), clips@.len() as int) <= max_duration_nanos(),
    ensures
        out@.len() == clips@.len(),
        forall|i: int| 0 <= i < clips@.len() ==> (#[trigger] out@[i]).view_tuple() == timeline_entry(clips@, i),
{
    let ghost ds = clip_durations(clips@);
    let mut out: Vec<SubtitleEntry> = Vec::new();
    let mut start: u128 = 0;
    let mut i: usize = 0;
    while i < clips.len()
        invariant
            i <= clips.len(),
            ds == clip_durations(clips@),
            ds.len() == clips@.len(),
            start == elapsed(ds, i as int),
            elapsed(ds, clips@.len() as int) <= max_duration_nanos(),
            out@.len() == i,
            forall|j: int| 0 <= j < i ==> (#[trigger] out@[j]).view_tuple() == timeline_entry(clips@, j),
        decreases clips.len() - i,
    {
        proof {
            lemma_elapsed_monotone(ds, i + 1, clips@.len() as int);
            assert(ds[i as int] == clips@[i as int].duration_nanos);
        }
        let end: u128 = start + clips[i].duration_nanos;
        let entry = SubtitleEntry {
            index: i,
            start_ms: (start / 1000000) as u32,
            end_ms: (end / 1000000) as u32,
            text: clips[i].text.clone(),
        };
        out.push(entry);
        start = end;
        i += 1;
    }
    out
}

/// Played back to back, the subtitles leave no gap: each starts where the one
/// before it ends, and the first starts at zero.
pub proof fn law_timeline_contiguous(clips: Seq<Clip>, i: int)
    requires
        0 <= i < clips.len(),
    ensures
        timeline_entry(clips, 0).1 == 0,
        i + 1 < clips.len() ==> timeline_entry(clips, i).2 == timeline_entry(clips, i + 1).1,
{
}


/// `srtlib::Timestamp` as displayed: `hh:mm:ss,mmm`, hours, minutes and
/// seconds taken as `u8` and milliseconds as `u16`, as the crate computes them.
pub open spec fn srt_timestamp(ms: u32) -> Seq<char> {
    let h = (ms / 3600000) % 256;
    let r1 = ms - h * 3600000;
    let m = (r1 / 60000) % 256;
    let r2 = r1 - m * 60000;
    let sec = (r2 / 1000) % 256;
    let r3 = r2 - sec * 1000;
    let milli = r3 % 65536;
    zero_pad(dec(h as nat), 2) + seq![':'] + zero_pad(dec(m as nat), 2) + seq![':'] + zero_pad(
        dec(sec as nat),
        2,
    ) + seq![','] + zero_pad(dec(milli as nat), 3)
}

/// `srtlib::Subtitle` as displayed: number, time span, text.
pub open spec fn srt_block(e: (usize, u32, u32, Seq<char>)) -> Seq<char> {
    dec(e.0 as nat) + seq!['\n'] + srt_timestamp(e.1) + seq![' ', '-', '-', '>', ' '] + srt_timestamp(
        e.2,
    ) + seq!['\n'] + e.3
}

/// `srtlib::Subtitles` as displayed: the blocks separated by blank lines.
pub open spec fn srt_text(es: Seq<(usize, u32, u32, Seq<char>)>) -> Seq<char>
    decreases es.len(),
{
    if es.len() == 0 {
        Seq::empty()
    } else if es.len() == 1 {
        srt_block(es[0])
    } else {
        srt_text(es.drop_last()) + seq!['\n', '\n'] + srt_block(es.last())
    }
}

/// Renders subtitles as an `.srt` document with `srtlib`: each entry becomes
/// a `srtlib::Subtitle` pushed in order onto a `srtlib::Subtitles`, which is
/// then turned into text with its `Display` impl. The contract states that
/// text as the crate's source writes it.
#[verifier::external_body]
pub(crate) fn srtlib_render(entries: &Vec<SubtitleEntry>) -> (text: String)
    ensures
        text@ == srt_text(entries@.map_values(|e: SubtitleEntry| e.view_tuple())),
{
    let mut subs = srtlib::Subtitles::new();
    for e in entries.iter() {
        subs.push(srtlib::Subtitle::new(
            e.index,
            srtlib::Timestamp::from_milliseconds(e.start_ms),
            srtlib::Timestamp::from_milliseconds(e.end_ms),
            e.text.clone(),
        ));
    }
    subs.to_string()
}

/// The `.srt` document of clips played back to back.
pub fn subtitles_for(clips: &Vec<Clip>) -> (srt: String)
    requires
        elapsed(clip_durations(clips@), clips@.len() as int) <= max_duration_nanos(),
    ensures
        srt@ == srt_text(Seq::new(clips@.len(), |i: int| timeline_entry(clips@, i))),
{
    let entries = subtitle_timeline(clips);
    let text = srtlib_render(&entries);
    proof {
        assert(entries@.map_values(|e: SubtitleEntry| e.view_tuple()) =~= Seq::new(
            clips@.len(),
            |i: int| timeline_entry(clips@, i),
        ));
    }
    text
}

} // verus!
