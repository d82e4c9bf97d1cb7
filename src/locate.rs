//! The decoder locator: the candidate places of the decoder executable, in
//! priority order, and the choice among those found to exist.
use vstd::prelude::*;
use crate::paths::clone_parts;
use crate::text::{arg_texts, owned, push_arg};

verus! {

/// Each candidate path, as the characters of its components.
pub open spec fn path_texts(v: Seq<Vec<String>>) -> Seq<Seq<Seq<char>>> {
    v.map_values(|p: Vec<String>| arg_texts(p@))
}

/// The candidates under a directory `d`: the standard name and the name
/// with a doubled executable suffix, directly in `d`, in `d/bin`, and in
/// `d/resources/bin`.
pub open spec fn candidates_under(d: Seq<Seq<char>>) -> Seq<Seq<Seq<char>>> {
    seq![
        d.push("ffmpeg.exe"@),
        d.push("ffmpeg.exe.exe"@),
        d.push("bin"@).push("ffmpeg.exe"@),
        d.push("bin"@).push("ffmpeg.exe.exe"@),
        d.push("resources"@).push("bin"@).push("ffmpeg.exe"@),
        d.push("resources"@).push("bin"@).push("ffmpeg.exe.exe"@),
    ]
}

/// All candidates in priority order: the development paths, then those
/// under the executable's directory, then those under `resources/bin` of
/// its parent.
pub open spec fn candidate_list(exe_dir: Option<Seq<Seq<char>>>) -> Seq<Seq<Seq<char>>> {
    let dev = seq![seq!["src-tauri"@, "bin"@, "ffmpeg.exe"@], seq!["bin"@, "ffmpeg.exe"@]];
    match exe_dir {
        None => dev,
        Some(d) => dev + candidates_under(d) + if d.len() > 0 {
            seq![
                d.drop_last().push("resources"@).push("bin"@).push("ffmpeg.exe"@),
                d.drop_last().push("resources"@).push("bin"@).push("ffmpeg.exe.exe"@),
            ]
        } else {
            Seq::empty()
        },
    }
}

/// The first position at or after `k` whose candidate was found to exist.
pub open spec fn first_present(present: Seq<bool>, n: int, k: int) -> Option<int>
    decreases n - k,
{
    if k < 0 || k >= n || k >= present.len() {
        None
    } else if present[k] {
        Some(k)
    } else {
        first_present(present, n, k + 1)
    }
}

/// The decoder's path: the first candidate found to exist, else the bare
/// name `ffmpeg`, found through the search path.
pub open spec fn chosen_decoder(cands: Seq<Seq<Seq<char>>>, present: Seq<bool>) -> Seq<Seq<char>> {
    match first_present(present, cands.len() as int, 0) {
        Some(k) => cands[k],
        None => seq!["ffmpeg"@],
    }
}

fn push_path(v: &mut Vec<Vec<String>>, p: Vec<String>)
    ensures
        path_texts(final(v)@) == path_texts(old(v)@).push(arg_texts(p@)),
{
    v.push(p);
    assert(path_texts(final(v)@) =~= path_texts(old(v)@).push(arg_texts(p@)));
}

fn under(d: &Vec<String>, upto: usize, a: &str, b: &str, c: Option<&str>) -> (r: Vec<String>)
    requires
        upto <= d.len(),
    ensures
        arg_texts(r@) == match c {
            Some(c) => arg_texts(d@).take(upto as int).push(a@).push(b@).push(c@),
            None => arg_texts(d@).take(upto as int).push(a@).push(b@),
        },
{
    let mut r: Vec<String> = Vec::new();
    clone_parts(d, 0, upto, &mut r);
    push_arg(&mut r, owned(a));
    push_arg(&mut r, owned(b));
    if let Some(c) = c {
        push_arg(&mut r, owned(c));
    }
    r
}

/// The places to look for the decoder, in priority order.
pub fn decoder_candidates(exe_dir: Option<&Vec<String>>) -> (r: Vec<Vec<String>>)
    ensures
        path_texts(r@) == candidate_list(
            match exe_dir {
                Some(d) => Some(arg_texts(d@)),
                None => None,
            },
        ),
{
    let mut v: Vec<Vec<String>> = Vec::new();
    let e: Vec<String> = Vec::new();
    push_path(&mut v, under(&e, 0, "src-tauri", "bin", Some("ffmpeg.exe")));
    push_path(&mut v, under(&e, 0, "bin", "ffmpeg.exe", None));
    proof {
        let z = arg_texts(e@).take(0);
        assert(z =~= Seq::<Seq<char>>::empty());
        assert(z.push("src-tauri"@).push("bin"@).push("ffmpeg.exe"@) =~= seq![
            "src-tauri"@,
            "bin"@,
            "ffmpeg.exe"@,
        ]);
        assert(z.push("bin"@).push("ffmpeg.exe"@) =~= seq!["bin"@, "ffmpeg.exe"@]);
        assert(path_texts(v@) =~= seq![
            seq!["src-tauri"@, "bin"@, "ffmpeg.exe"@],
            seq!["bin"@, "ffmpeg.exe"@],
        ]);
    }
    if let Some(d) = exe_dir {
        let n = d.len();
        assert(arg_texts(d@).take(n as int) =~= arg_texts(d@));
        let mut p1: Vec<String> = Vec::new();
        clone_parts(d, 0, n, &mut p1);
        push_arg(&mut p1, owned("ffmpeg.exe"));
        push_path(&mut v, p1);
        let mut p2: Vec<String> = Vec::new();
        clone_parts(d, 0, n, &mut p2);
        push_arg(&mut p2, owned("ffmpeg.exe.exe"));
        push_path(&mut v, p2);
        push_path(&mut v, under(d, n, "bin", "ffmpeg.exe", None));
        push_path(&mut v, under(d, n, "bin", "ffmpeg.exe.exe", None));
        push_path(&mut v, under(d, n, "resources", "bin", Some("ffmpeg.exe")));
        push_path(&mut v, under(d, n, "resources", "bin", Some("ffmpeg.exe.exe")));
        if n > 0 {
            assert(arg_texts(d@).take(n - 1) =~= arg_texts(d@).drop_last());
            push_path(&mut v, under(d, n - 1, "resources", "bin", Some("ffmpeg.exe")));
            push_path(&mut v, under(d, n - 1, "resources", "bin", Some("ffmpeg.exe.exe")));
        }
        assert(path_texts(v@) =~= candidate_list(Some(arg_texts(d@))));
    } else {
        assert(path_texts(v@) =~= candidate_list(None));
    }
    v
}

/// The decoder's path, given for each candidate in turn whether it exists
/// as a regular file.
pub fn select_decoder(candidates: &Vec<Vec<String>>, present: &Vec<bool>) -> (r: Vec<String>)
    ensures
        arg_texts(r@) == chosen_decoder(path_texts(candidates@), present@),
{
    let mut k: usize = 0;
    while k < candidates.len() && k < present.len()
        invariant
            k <= candidates.len(),
            first_present(present@, candidates.len() as int, k as int) == first_present(
                present@,
                candidates.len() as int,
                0,
            ),
        decreases candidates.len() - k,
    {
        if present[k] {
            let mut r: Vec<String> = Vec::new();
            clone_parts(&candidates[k], 0, candidates[k].len(), &mut r);
            assert(arg_texts(r@) =~= arg_texts(candidates@[k as int]@));
            return r;
        }
        k = k + 1;
    }
    let mut r: Vec<String> = Vec::new();
    push_arg(&mut r, owned("ffmpeg"));
    r
}

/// The arguments of the availability check: a version query.
pub fn version_args() -> (r: Vec<String>)
    ensures
        arg_texts(r@) == seq!["-version"@],
{
    let mut r: Vec<String> = Vec::new();
    push_arg(&mut r, owned("-version"));
    r
}

} // verus!
