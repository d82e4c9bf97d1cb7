//! The frame-extraction invoker: how many frames a video owes, the decoder
//! invocation that writes them, the names of the written artifacts, and the
//! count of artifacts actually found.
use vstd::prelude::*;
use crate::text::{append_decimal, append_decimal_width4, append_str, arg_texts, decimal, decimal_width4, owned, push_arg};

verus! {

/// `a / b` rounded up.
pub open spec fn ceil_div(a: nat, b: nat) -> nat
    recommends
        b > 0,
{
    ((a + b - 1) as nat / b) as nat
}

/// Frames owed by a video of `duration_cs` hundredths of a second when the
/// first `skip` seconds are skipped and one frame is taken every `interval`
/// seconds: `ceil((duration - skip) / interval)`, and none when nothing is
/// left after the skip.
pub open spec fn frames_wanted(duration_cs: nat, skip: nat, interval: nat) -> nat
    recommends
        interval > 0,
{
    if duration_cs <= 100 * skip {
        0
    } else {
        ceil_div((duration_cs - 100 * skip) as nat, 100 * interval)
    }
}

/// The frame-selection filter: frames at or after `skip` whose elapsed time
/// past `skip`, modulo `interval`, is under a tenth of a second.
pub open spec fn select_filter(skip: nat, interval: nat) -> Seq<char> {
    "select='gte(t,"@ + decimal(skip) + ")*lt(mod(t-"@ + decimal(skip) + ","@ + decimal(interval)
        + "),0.1)'"@
}

/// The arguments of the extraction run: seek to `skip`, select frames, emit
/// only the selected ones, as high-quality images numbered by `pattern`.
pub open spec fn extract_arg_list(skip: nat, interval: nat, video: Seq<char>, pattern: Seq<
    char,
>) -> Seq<Seq<char>> {
    seq![
        "-ss"@,
        decimal(skip),
        "-i"@,
        video,
        "-vf"@,
        select_filter(skip, interval),
        "-vsync"@,
        "vfr"@,
        "-q:v"@,
        "2"@,
        "-y"@,
        pattern,
    ]
}

/// The file-name pattern the decoder numbers artifacts by.
pub open spec fn pattern_name(stem: Seq<char>) -> Seq<char> {
    stem + "_%04d.jpg"@
}

/// The name of the `k`-th artifact written for a video with stem `stem`.
pub open spec fn artifact_name_spec(stem: Seq<char>, k: nat) -> Seq<char> {
    stem + "_"@ + decimal_width4(k) + ".jpg"@
}

/// How many entries at the front of `present` are `true`.
pub open spec fn leading_present(present: Seq<bool>) -> nat
    decreases present.len(),
{
    if present.len() == 0 || !present[0] {
        0
    } else {
        1 + leading_present(present.drop_first())
    }
}

/// The number of frames to extract.
pub fn total_frames(duration_cs: u64, skip_start_sec: u64, frame_interval_sec: u64) -> (r: u64)
    requires
        frame_interval_sec > 0,
    ensures
        r == frames_wanted(duration_cs as nat, skip_start_sec as nat, frame_interval_sec as nat),
{
    let d = duration_cs as u128;
    let skip = skip_start_sec as u128 * 100;
    if d <= skip {
        return 0;
    }
    let step = frame_interval_sec as u128 * 100;
    let r = (d - skip + step - 1) / step;
    proof {
        let a = (d - skip) as int;
        let b = step as int;
        let q = (a + b - 1) / b;
        assert(q * b <= a + b - 1) by (nonlinear_arith)
            requires
                q == (a + b - 1) / b,
                b >= 1,
                a >= 1,
        ;
        assert(q <= a) by (nonlinear_arith)
            requires
                q * b <= a + b - 1,
                b >= 1,
                a >= 1,
        ;
    }
    r as u64
}

/// The frame-selection filter for `skip` and `interval`.
pub fn select_filter_text(skip_start_sec: u64, frame_interval_sec: u64) -> (r: String)
    ensures
        r@ == select_filter(skip_start_sec as nat, frame_interval_sec as nat),
{
    let mut s = owned("select='gte(t,");
    append_decimal(&mut s, skip_start_sec);
    append_str(&mut s, ")*lt(mod(t-");
    append_decimal(&mut s, skip_start_sec);
    append_str(&mut s, ",");
    append_decimal(&mut s, frame_interval_sec);
    append_str(&mut s, "),0.1)'");
    s
}

/// The arguments that make the decoder write the selected frames of `video`
/// to files named after `pattern`.
pub fn extract_args(skip_start_sec: u64, frame_interval_sec: u64, video: &str, pattern: &str) -> (r:
    Vec<String>)
    ensures
        arg_texts(r@) == extract_arg_list(
            skip_start_sec as nat,
            frame_interval_sec as nat,
            video@,
            pattern@,
        ),
{
    let mut v: Vec<String> = Vec::new();
    push_arg(&mut v, owned("-ss"));
    push_arg(&mut v, crate::text::decimal_text(skip_start_sec));
    push_arg(&mut v, owned("-i"));
    push_arg(&mut v, owned(video));
    push_arg(&mut v, owned("-vf"));
    push_arg(&mut v, select_filter_text(skip_start_sec, frame_interval_sec));
    push_arg(&mut v, owned("-vsync"));
    push_arg(&mut v, owned("vfr"));
    push_arg(&mut v, owned("-q:v"));
    push_arg(&mut v, owned("2"));
    push_arg(&mut v, owned("-y"));
    push_arg(&mut v, owned(pattern));
    assert(arg_texts(v@) =~= extract_arg_list(
        skip_start_sec as nat,
        frame_interval_sec as nat,
        video@,
        pattern@,
    ));
    v
}

/// The file-name pattern for the artifacts of a video with stem `stem`.
pub fn output_pattern_name(stem: &str) -> (r: String)
    ensures
        r@ == pattern_name(stem@),
{
    let mut s = owned(stem);
    append_str(&mut s, "_%04d.jpg");
    s
}

/// The name of the `k`-th artifact of a video with stem `stem` (`<stem>_0001.jpg` first).
pub fn artifact_name(stem: &str, k: u64) -> (r: String)
    ensures
        r@ == artifact_name_spec(stem@, k as nat),
{
    let mut s = owned(stem);
    append_str(&mut s, "_");
    append_decimal_width4(&mut s, k);
    append_str(&mut s, ".jpg");
    s
}

/// The number of frames actually written, given for `<stem>_0001`,
/// `<stem>_0002`, ... in turn whether the file exists: the count of files
/// found before the first one missing.
pub fn verified_frame_count(present: &Vec<bool>) -> (r: usize)
    ensures
        r == leading_present(present@),
{
    let mut k: usize = 0;
    assert(present@.skip(0) =~= present@);
    while k < present.len() && present[k]
        invariant
            k <= present.len(),
            leading_present(present@) == k + leading_present(present@.skip(k as int)),
        decreases present.len() - k,
    {
        assert(present@.skip(k as int).drop_first() =~= present@.skip(k + 1));
        k = k + 1;
    }
    k
}


/// For whole-second durations at or past the skip, the frames owed are
/// `ceil((duration - skip) / interval)`.
pub proof fn lemma_frames_whole_seconds(duration: nat, skip: nat, interval: nat)
    requires
        interval > 0,
        duration >= skip,
    ensures
        frames_wanted(100 * duration, skip, interval) == ceil_div((duration - skip) as nat, interval),
{
    let a = (duration - skip) as int;
    let i = interval as int;
    if a > 0 {
        let q = (a + i - 1) / i;
        let r = (a + i - 1) % i;
        vstd::arithmetic::div_mod::lemma_fundamental_div_mod(a + i - 1, i);
        assert(100 * a + 100 * i - 1 == q * (100 * i) + (100 * r + 99)) by (nonlinear_arith)
            requires
                a + i - 1 == i * q + r,
        ;
        assert(0 <= 100 * r + 99 < 100 * i);
        vstd::arithmetic::div_mod::lemma_fundamental_div_mod_converse(
            100 * a + 100 * i - 1,
            100 * i,
            q,
            100 * r + 99,
        );
        assert(100 * duration - 100 * skip == 100 * a);
        assert(ceil_div((100 * a) as nat, (100 * i) as nat) == (100 * a + 100 * i - 1) / (100
            * i));
    } else {
        vstd::arithmetic::div_mod::lemma_basic_div_specific_divisor(i);
        assert((i - 1) / i == 0);
    }
}

/// Nothing is left after the skip: no frame is owed.
pub proof fn lemma_no_frames_after_skip(duration_cs: nat, skip: nat, interval: nat)
    requires
        duration_cs <= 100 * skip,
    ensures
        frames_wanted(duration_cs, skip, interval) == 0,
{
}

/// When the decoder wrote only the first `k` numbered artifacts, the count
/// of frames is `k`, whatever was asked of it.
pub proof fn lemma_count_stops_at_first_gap(present: Seq<bool>, k: int)
    requires
        0 <= k < present.len(),
        !present[k],
        forall|j: int| 0 <= j < k ==> present[j],
    ensures
        leading_present(present) == k,
    decreases k,
{
    if k > 0 {
        lemma_count_stops_at_first_gap(present.drop_first(), k - 1);
    }
}

} // verus!
