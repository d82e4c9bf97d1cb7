//! The metadata prober: the decoder invocation that analyses a video, the
//! reading of duration and frame rate out of the decoder's diagnostic text,
//! and the decision taken once the probe finished, failed or timed out.
use vstd::prelude::*;
use crate::text::{chars_of, digit_value, is_digit, owned};

verus! {

/// Unicode `White_Space`, the class matched by `\s`.
pub open spec fn is_space(c: char) -> bool {
    ('\t' <= c <= '\r') || c == ' ' || c == '\u{85}' || c == '\u{a0}' || c == '\u{1680}' || (
    '\u{2000}' <= c <= '\u{200a}') || c == '\u{2028}' || c == '\u{2029}' || c == '\u{202f}' || c
        == '\u{205f}' || c == '\u{3000}'
}

/// The first position at or after `j` that does not hold whitespace.
pub open spec fn spaces_end(s: Seq<char>, j: int) -> int
    decreases s.len() - j,
{
    if 0 <= j < s.len() && is_space(s[j]) {
        spaces_end(s, j + 1)
    } else {
        j
    }
}

/// The first position at or after `j` that does not hold an ASCII digit.
pub open spec fn digits_end(s: Seq<char>, j: int) -> int
    decreases s.len() - j,
{
    if 0 <= j < s.len() && is_digit(s[j]) {
        digits_end(s, j + 1)
    } else {
        j
    }
}

/// Whether `lit` occurs in `s` at position `i`.
pub open spec fn occurs_at(s: Seq<char>, i: int, lit: Seq<char>) -> bool {
    0 <= i && i + lit.len() <= s.len() && s.subrange(i, i + lit.len()) == lit
}

/// The value of the two ASCII digits at position `k`, if there are two.
pub open spec fn two_digits_at(s: Seq<char>, k: int) -> Option<nat> {
    if 0 <= k && k + 2 <= s.len() && is_digit(s[k]) && is_digit(s[k + 1]) {
        Some(10 * digit_value(s[k]) + digit_value(s[k + 1]))
    } else {
        None
    }
}

/// A clock reading `HH:MM:SS.cc` at position `k`, in hundredths of a second.
pub open spec fn clock_at(s: Seq<char>, k: int) -> Option<nat> {
    if k + 11 <= s.len() && s[k + 2] == ':' && s[k + 5] == ':' && s[k + 8] == '.' && two_digits_at(
        s,
        k,
    ) is Some && two_digits_at(s, k + 3) is Some && two_digits_at(s, k + 6) is Some
        && two_digits_at(s, k + 9) is Some {
        Some(
            ((two_digits_at(s, k)->0 * 60 + two_digits_at(s, k + 3)->0) * 60 + two_digits_at(
                s,
                k + 6,
            )->0) * 100 + two_digits_at(s, k + 9)->0,
        )
    } else {
        None
    }
}

pub open spec fn duration_label() -> Seq<char> {
    seq!['D', 'u', 'r', 'a', 't', 'i', 'o', 'n', ':']
}

/// The duration announced at position `i`: `Duration:`, optional whitespace,
/// then a clock reading.
pub open spec fn duration_at(s: Seq<char>, i: int) -> Option<nat> {
    if occurs_at(s, i, duration_label()) {
        clock_at(s, spaces_end(s, i + 9))
    } else {
        None
    }
}

/// The leftmost duration announcement at or after position `i`.
pub open spec fn first_duration(s: Seq<char>, i: int) -> Option<nat>
    decreases s.len() - i,
{
    if i < 0 || i >= s.len() {
        None
    } else if duration_at(s, i) is Some {
        duration_at(s, i)
    } else {
        first_duration(s, i + 1)
    }
}

pub open spec fn fps_label() -> Seq<char> {
    seq!['f', 'p', 's']
}

/// The end of a frame-rate numeral starting at position `i`: digits, an
/// optional point and more digits, then optional whitespace and `fps`.
pub open spec fn fps_numeral_end(s: Seq<char>, i: int) -> Option<int> {
    if 0 <= i < s.len() && is_digit(s[i]) {
        let d = digits_end(s, i);
        let e = if d < s.len() && s[d] == '.' {
            digits_end(s, d + 1)
        } else {
            d
        };
        if occurs_at(s, spaces_end(s, e), fps_label()) {
            Some(e)
        } else {
            None
        }
    } else {
        None
    }
}

/// The leftmost frame-rate numeral at or after position `i`.
pub open spec fn first_fps(s: Seq<char>, i: int) -> Option<Seq<char>>
    decreases s.len() - i,
{
    if i < 0 || i >= s.len() {
        None
    } else if fps_numeral_end(s, i) is Some {
        Some(s.subrange(i, fps_numeral_end(s, i)->0))
    } else {
        first_fps(s, i + 1)
    }
}

/// Frame rate assumed when the diagnostics announce none.
pub open spec fn default_frame_rate() -> Seq<char> {
    seq!['3', '0']
}

/// Duration, in hundredths of a second, assumed for a remote video whose probe timed out.
pub const DEGRADED_DURATION_CS: u64 = 360000;

/// Whether a path names a location on a network share (a UNC path).
pub open spec fn is_network_spec(p: Seq<char>) -> bool {
    p.len() >= 2 && ((p[0] == '\\' && p[1] == '\\') || (p[0] == '/' && p[1] == '/'))
}

pub fn is_space_char(c: char) -> (r: bool)
    ensures
        r == is_space(c),
{
    ('\t' <= c && c <= '\r') || c == ' ' || c == '\u{85}' || c == '\u{a0}' || c == '\u{1680}' || (
    '\u{2000}' <= c && c <= '\u{200a}') || c == '\u{2028}' || c == '\u{2029}' || c == '\u{202f}'
        || c == '\u{205f}' || c == '\u{3000}'
}

fn skip_spaces(s: &Vec<char>, j: usize) -> (k: usize)
    requires
        j <= s.len(),
    ensures
        k == spaces_end(s@, j as int),
        j <= k <= s.len(),
{
    let mut k = j;
    while k < s.len() && is_space_char(s[k])
        invariant
            j <= k <= s.len(),
            spaces_end(s@, k as int) == spaces_end(s@, j as int),
        decreases s.len() - k,
    {
        k = k + 1;
    }
    k
}

fn skip_digits(s: &Vec<char>, j: usize) -> (k: usize)
    requires
        j <= s.len(),
    ensures
        k == digits_end(s@, j as int),
        j <= k <= s.len(),
{
    let mut k = j;
    while k < s.len() && '0' <= s[k] && s[k] <= '9'
        invariant
            j <= k <= s.len(),
            digits_end(s@, k as int) == digits_end(s@, j as int),
        decreases s.len() - k,
    {
        k = k + 1;
    }
    k
}

fn lit_at(s: &Vec<char>, i: usize, lit: &Vec<char>) -> (r: bool)
    ensures
        r == occurs_at(s@, i as int, lit@),
{
    if i > s.len() || lit.len() > s.len() - i {
        return false;
    }
    let mut k: usize = 0;
    while k < lit.len()
        invariant
            k <= lit.len(),
            i + lit.len() <= s.len(),
            forall|m: int| 0 <= m < k ==> s@[i + m] == lit@[m],
        decreases lit.len() - k,
    {
        if s[i + k] != lit[k] {
            assert(s@.subrange(i as int, i + lit.len())[k as int] != lit@[k as int]);
            return false;
        }
        k = k + 1;
    }
    assert(s@.subrange(i as int, i + lit.len()) =~= lit@);
    true
}

fn two_digits(s: &Vec<char>, k: usize) -> (r: Option<u64>)
    requires
        k + 2 <= s.len(),
    ensures
        r matches Some(v) ==> two_digits_at(s@, k as int) == Some(v as nat),
        r is None ==> two_digits_at(s@, k as int) is None,
        r matches Some(v) ==> v < 100,
{
    let a = s[k];
    let b = s[k + 1];
    if '0' <= a && a <= '9' && '0' <= b && b <= '9' {
        Some(10 * (a as u64 - 48) + (b as u64 - 48))
    } else {
        None
    }
}

fn clock(s: &Vec<char>, k: usize) -> (r: Option<u64>)
    requires
        k <= s.len(),
    ensures
        r matches Some(v) ==> clock_at(s@, k as int) == Some(v as nat),
        r is None ==> clock_at(s@, k as int) is None,
{
    if s.len() - k < 11 {
        return None;
    }
    if s[k + 2] != ':' || s[k + 5] != ':' || s[k + 8] != '.' {
        return None;
    }
    let h = two_digits(s, k);
    let m = two_digits(s, k + 3);
    let sec = two_digits(s, k + 6);
    let cs = two_digits(s, k + 9);
    match (h, m, sec, cs) {
        (Some(h), Some(m), Some(sec), Some(cs)) => Some(((h * 60 + m) * 60 + sec) * 100 + cs),
        _ => None,
    }
}

fn duration_here(s: &Vec<char>, label: &Vec<char>, i: usize) -> (r: Option<u64>)
    requires
        label@ == duration_label(),
        i <= s.len(),
    ensures
        r matches Some(v) ==> duration_at(s@, i as int) == Some(v as nat),
        r is None ==> duration_at(s@, i as int) is None,
{
    if lit_at(s, i, label) {
        let k = skip_spaces(s, i + 9);
        clock(s, k)
    } else {
        None
    }
}

/// The duration announced in the decoder's diagnostics (`Duration: HH:MM:SS.cc`,
/// the leftmost one), in hundredths of a second.
pub fn parse_duration(output: &str) -> (r: Option<u64>)
    ensures
        r matches Some(v) ==> first_duration(output@, 0) == Some(v as nat),
        r is None ==> first_duration(output@, 0) is None,
{
    let s = chars_of(output);
    let label = chars_of("Duration:");
    proof {
        reveal_strlit("Duration:");
        assert(label@ =~= duration_label());
    }
    let mut i: usize = 0;
    while i < s.len()
        invariant
            i <= s.len(),
            s@ == output@,
            label@ == duration_label(),
            first_duration(s@, i as int) == first_duration(s@, 0),
        decreases s.len() - i,
    {
        let r = duration_here(&s, &label, i);
        if r.is_some() {
            return r;
        }
        i = i + 1;
    }
    None
}

/// The frame-rate numeral announced in the decoder's diagnostics
/// (`<number> fps`, the leftmost one), as written there.
pub fn parse_fps(output: &str) -> (r: Option<String>)
    ensures
        r matches Some(v) ==> first_fps(output@, 0) == Some(v@),
        r is None ==> first_fps(output@, 0) is None,
{
    let s = chars_of(output);
    let label = chars_of("fps");
    proof {
        reveal_strlit("fps");
        assert(label@ =~= fps_label());
    }
    let mut i: usize = 0;
    while i < s.len()
        invariant
            i <= s.len(),
            s@ == output@,
            label@ == fps_label(),
            first_fps(s@, i as int) == first_fps(s@, 0),
        decreases s.len() - i,
    {
        if '0' <= s[i] && s[i] <= '9' {
            let d = skip_digits(&s, i);
            let e = if d < s.len() && s[d] == '.' {
                skip_digits(&s, d + 1)
            } else {
                d
            };
            let k = skip_spaces(&s, e);
            if lit_at(&s, k, &label) {
                let mut out = String::new();
                let mut m = i;
                while m < e
                    invariant
                        i <= m <= e <= s.len(),
                        out@ == s@.subrange(i as int, m as int),
                    decreases e - m,
                {
                    crate::text::push_char(&mut out, s[m]);
                    assert(out@ =~= s@.subrange(i as int, m + 1));
                    m = m + 1;
                }
                return Some(out);
            }
        }
        i = i + 1;
    }
    None
}

/// Whether a path names a location on a network share (a UNC path).
pub fn is_network_path(path: &str) -> (r: bool)
    ensures
        r == is_network_spec(path@),
{
    let p = chars_of(path);
    p.len() >= 2 && ((p[0] == '\\' && p[1] == '\\') || (p[0] == '/' && p[1] == '/'))
}

} // verus!

verus! {

/// What became of one run of the decoder in analysis mode.
#[derive(Debug)]
pub enum ProbeReport {
    /// The decoder exited (with any status); its diagnostic text.
    Finished { diagnostics: String },
    /// The decoder could not be started.
    SpawnFailed { message: String },
    /// The time budget ran out before the decoder exited.
    TimedOut,
}

/// Why a probe yields no metadata.
#[derive(Debug)]
pub enum ProbeError {
    /// A local video's probe ran out of time.
    Timeout,
    /// The decoder could not be started.
    Spawn { message: String },
}

/// Duration and frame rate of one video.
#[derive(Debug)]
pub struct VideoMetadata {
    /// Duration in hundredths of a second.
    pub duration_cs: u64,
    /// Frame rate as a decimal numeral (informational only).
    pub frame_rate: String,
}

/// Arguments of the analysis run: bounded probing and read rate for remote
/// videos, then the input and a null output.
pub open spec fn probe_arg_list(video: Seq<char>, remote: bool) -> Seq<Seq<char>> {
    let tail = seq!["-i"@, video, "-f"@, "null"@, "-"@];
    if remote {
        seq!["-analyzeduration"@, "5000000"@, "-probesize"@, "2097152"@, "-readrate"@, "10M"@]
            + tail
    } else {
        tail
    }
}

/// The metadata a probe yields, as a function of its report.
pub open spec fn probe_result(remote: bool, report: ProbeReport) -> Result<
    (nat, Seq<char>),
    ProbeError,
> {
    match report {
        ProbeReport::Finished { diagnostics } => Ok(
            (
                match first_duration(diagnostics@, 0) {
                    Some(d) => d,
                    None => 0,
                },
                match first_fps(diagnostics@, 0) {
                    Some(f) => f,
                    None => default_frame_rate(),
                },
            ),
        ),
        ProbeReport::SpawnFailed { message } => Err(ProbeError::Spawn { message }),
        ProbeReport::TimedOut => if remote {
            Ok((DEGRADED_DURATION_CS as nat, default_frame_rate()))
        } else {
            Err(ProbeError::Timeout)
        },
    }
}

/// The arguments that run the decoder in analysis mode on `video`.
pub fn probe_args(video: &str, remote: bool) -> (r: Vec<String>)
    ensures
        crate::text::arg_texts(r@) == probe_arg_list(video@, remote),
{
    let mut v: Vec<String> = Vec::new();
    if remote {
        crate::text::push_arg(&mut v, owned("-analyzeduration"));
        crate::text::push_arg(&mut v, owned("5000000"));
        crate::text::push_arg(&mut v, owned("-probesize"));
        crate::text::push_arg(&mut v, owned("2097152"));
        crate::text::push_arg(&mut v, owned("-readrate"));
        crate::text::push_arg(&mut v, owned("10M"));
    }
    crate::text::push_arg(&mut v, owned("-i"));
    crate::text::push_arg(&mut v, owned(video));
    crate::text::push_arg(&mut v, owned("-f"));
    crate::text::push_arg(&mut v, owned("null"));
    crate::text::push_arg(&mut v, owned("-"));
    assert(crate::text::arg_texts(v@) =~= probe_arg_list(video@, remote));
    v
}

/// The probe's time budget in seconds: 30 for a remote video, 15 for a local one.
pub fn probe_timeout_secs(remote: bool) -> (r: u64)
    ensures
        r == (if remote {
            30u64
        } else {
            15u64
        }),
{
    if remote {
        30
    } else {
        15
    }
}

/// The metadata obtained from a probe's report. Diagnostics without a
/// duration give 0; without a frame rate, 30. A timeout is fatal for a local
/// video and gives the degraded estimate (one hour, 30 fps) for a remote one.
pub fn probe_metadata(remote: bool, report: ProbeReport) -> (r: Result<VideoMetadata, ProbeError>)
    ensures
        match r {
            Ok(m) => probe_result(remote, report) == Ok::<(nat, Seq<char>), ProbeError>(
                (m.duration_cs as nat, m.frame_rate@),
            ),
            Err(e) => probe_result(remote, report) == Err::<(nat, Seq<char>), ProbeError>(e),
        },
{
    match report {
        ProbeReport::Finished { diagnostics } => {
            let d = parse_duration(diagnostics.as_str());
            let f = parse_fps(diagnostics.as_str());
            let duration_cs = match d {
                Some(v) => v,
                None => 0,
            };
            let frame_rate = match f {
                Some(t) => t,
                None => owned("30"),
            };
            proof {
                reveal_strlit("30");
                assert(default_frame_rate() =~= "30"@);
            }
            Ok(VideoMetadata { duration_cs, frame_rate })
        },
        ProbeReport::SpawnFailed { message } => Err(ProbeError::Spawn { message }),
        ProbeReport::TimedOut => {
            if remote {
                proof {
                    reveal_strlit("30");
                    assert(default_frame_rate() =~= "30"@);
                }
                Ok(VideoMetadata { duration_cs: DEGRADED_DURATION_CS, frame_rate: owned("30") })
            } else {
                Err(ProbeError::Timeout)
            }
        },
    }
}


/// A remote video whose probe timed out is not failed: it gets the degraded
/// estimate of one hour at 30 fps. A local one fails with a timeout.
pub proof fn lemma_timeout_degrades_only_remote()
    ensures
        probe_result(true, ProbeReport::TimedOut) == Ok::<(nat, Seq<char>), ProbeError>(
            (360000nat, seq!['3', '0']),
        ),
        probe_result(false, ProbeReport::TimedOut) == Err::<(nat, Seq<char>), ProbeError>(
            ProbeError::Timeout,
        ),
{
}

} // verus!
