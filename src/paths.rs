//! Paths as sequences of components (the first may be a root such as `/` or
//! `C:\`), the output-path resolver, and the rendering of a path as text.
use vstd::prelude::*;
use crate::text::{arg_texts, owned, append_str, push_char};

verus! {

/// The position of the last `.` in `name` among its first `n` characters.
pub open spec fn last_dot_before(name: Seq<char>, n: int) -> Option<int>
    decreases n,
{
    if n <= 0 || n > name.len() {
        None
    } else if name[n - 1] == '.' {
        Some(n - 1)
    } else {
        last_dot_before(name, n - 1)
    }
}

pub open spec fn is_dot_name(name: Seq<char>) -> bool {
    name.len() == 0 || name == seq!['.'] || name == seq!['.', '.']
}

/// The stem of a file name: the name without its extension, where the
/// extension follows the last `.` that is not the first character.
pub open spec fn stem_of(name: Seq<char>) -> Option<Seq<char>> {
    if is_dot_name(name) {
        None
    } else {
        match last_dot_before(name, name.len() as int) {
            Some(i) if i > 0 => Some(name.subrange(0, i)),
            _ => Some(name),
        }
    }
}

/// The extension of a file name, if it has one.
pub open spec fn extension_of(name: Seq<char>) -> Option<Seq<char>> {
    if is_dot_name(name) {
        None
    } else {
        match last_dot_before(name, name.len() as int) {
            Some(i) if i > 0 => Some(name.subrange(i + 1, name.len() as int)),
            _ => None,
        }
    }
}

/// The directory into which the frames of `video` go. With `preserve`, the
/// video's parent directory relative to `input_root` is added under
/// `output_root` (nothing is added when the video does not lie under
/// `input_root`); with `subdir`, the video's stem is added last.
pub open spec fn output_dir_spec(
    video: Seq<Seq<char>>,
    input_root: Seq<Seq<char>>,
    output_root: Seq<Seq<char>>,
    preserve: bool,
    subdir: bool,
) -> Seq<Seq<char>> {
    let base = if preserve && video.len() > 0 && input_root.is_prefix_of(video.drop_last()) {
        output_root + video.drop_last().skip(input_root.len() as int)
    } else {
        output_root
    };
    if subdir && video.len() > 0 && stem_of(video.last()) is Some {
        base.push(stem_of(video.last())->0)
    } else {
        base
    }
}

/// A path rendered as text: components joined by `sep`, with no separator
/// added after a component that already ends with one.
pub open spec fn rendered(parts: Seq<Seq<char>>, sep: char) -> Seq<char>
    decreases parts.len(),
{
    if parts.len() == 0 {
        Seq::empty()
    } else {
        let acc = rendered(parts.drop_last(), sep);
        if acc.len() == 0 || acc.last() == sep {
            acc + parts.last()
        } else {
            acc.push(sep) + parts.last()
        }
    }
}

fn last_dot(name: &Vec<char>) -> (r: Option<usize>)
    ensures
        r matches Some(i) ==> last_dot_before(name@, name.len() as int) == Some(i as int) && i
            < name.len(),
        r is None ==> last_dot_before(name@, name.len() as int) is None,
{
    let mut n = name.len();
    while n > 0
        invariant
            n <= name.len(),
            last_dot_before(name@, n as int) == last_dot_before(name@, name.len() as int),
        decreases n,
    {
        if name[n - 1] == '.' {
            return Some(n - 1);
        }
        n = n - 1;
    }
    None
}

fn dot_name(name: &Vec<char>) -> (r: bool)
    ensures
        r == is_dot_name(name@),
{
    if name.len() == 0 {
        return true;
    }
    if name.len() == 1 && name[0] == '.' {
        assert(name@ =~= seq!['.']);
        return true;
    }
    if name.len() == 2 && name[0] == '.' && name[1] == '.' {
        assert(name@ =~= seq!['.', '.']);
        return true;
    }
    assert(name@ != seq!['.']);
    assert(name@ != seq!['.', '.']) by {
        if name@ == seq!['.', '.'] {
            assert(name@[0] == '.' && name@[1] == '.');
        }
    }
    false
}

fn chars_to_string(c: &Vec<char>, from: usize, to: usize) -> (r: String)
    requires
        from <= to <= c.len(),
    ensures
        r@ == c@.subrange(from as int, to as int),
{
    let mut out = String::new();
    let mut m = from;
    while m < to
        invariant
            from <= m <= to <= c.len(),
            out@ == c@.subrange(from as int, m as int),
        decreases to - m,
    {
        push_char(&mut out, c[m]);
        assert(out@ =~= c@.subrange(from as int, m + 1));
        m = m + 1;
    }
    out
}

/// The stem of a file name, if it has one.
pub fn file_stem(name: &str) -> (r: Option<String>)
    ensures
        r matches Some(t) ==> stem_of(name@) == Some(t@),
        r is None ==> stem_of(name@) is None,
{
    let c = crate::text::chars_of(name);
    if dot_name(&c) {
        return None;
    }
    match last_dot(&c) {
        Some(i) => {
            if i > 0 {
                Some(chars_to_string(&c, 0, i))
            } else {
                Some(owned(name))
            }
        },
        None => Some(owned(name)),
    }
}

/// Whether a file name carries the video extension `mp4` (matched exactly).
pub fn has_video_extension(name: &str) -> (r: bool)
    ensures
        r == (extension_of(name@) == Some(seq!['m', 'p', '4'])),
{
    let c = crate::text::chars_of(name);
    if dot_name(&c) {
        return false;
    }
    match last_dot(&c) {
        Some(i) => {
            if i > 0 && c.len() - i == 4 && c[i + 1] == 'm' && c[i + 2] == 'p' && c[i + 3] == '4' {
                assert(c@.subrange(i + 1, c.len() as int) =~= seq!['m', 'p', '4']);
                true
            } else {
                proof {
                    if i > 0 && c@.subrange(i + 1, c.len() as int) == seq!['m', 'p', '4'] {
                        assert(c@.subrange(i + 1, c.len() as int).len() == 3);
                        assert(c@.subrange(i + 1, c.len() as int)[0] == 'm');
                        assert(c@.subrange(i + 1, c.len() as int)[1] == 'p');
                        assert(c@.subrange(i + 1, c.len() as int)[2] == '4');
                    }
                }
                false
            }
        },
        None => false,
    }
}

pub(crate) fn clone_parts(v: &Vec<String>, from: usize, to: usize, out: &mut Vec<String>)
    requires
        from <= to <= v.len(),
    ensures
        arg_texts(final(out)@) == arg_texts(old(out)@) + arg_texts(v@).subrange(
            from as int,
            to as int,
        ),
{
    let mut k = from;
    while k < to
        invariant
            from <= k <= to <= v.len(),
            arg_texts(out@) == arg_texts(old(out)@) + arg_texts(v@).subrange(from as int, k as int),
        decreases to - k,
    {
        crate::text::push_arg(out, v[k].clone());
        assert(arg_texts(out@) =~= arg_texts(old(out)@) + arg_texts(v@).subrange(
            from as int,
            k + 1,
        ));
        k = k + 1;
    }
}

fn parts_prefix(p: &Vec<String>, v: &Vec<String>, n: usize) -> (r: bool)
    requires
        n <= v.len(),
    ensures
        r == arg_texts(p@).is_prefix_of(arg_texts(v@).subrange(0, n as int)),
{
    let ghost pv = arg_texts(p@);
    let ghost vv = arg_texts(v@).subrange(0, n as int);
    if p.len() > n {
        return false;
    }
    let mut k: usize = 0;
    while k < p.len()
        invariant
            k <= p.len() <= n <= v.len(),
            pv == arg_texts(p@),
            vv == arg_texts(v@).subrange(0, n as int),
            forall|m: int| 0 <= m < k ==> pv[m] == vv[m],
        decreases p.len() - k,
    {
        if p[k] != v[k] {
            assert(pv[k as int] != vv[k as int]);
            return false;
        }
        k = k + 1;
    }
    assert(vv.subrange(0, pv.len() as int) =~= pv);
    true
}

/// The directory into which the frames of `video_path` go (all paths as
/// components). Pure: the same inputs give the same directory.
pub fn get_output_dir_for_video(
    video_path: &Vec<String>,
    input_root: &Vec<String>,
    output_root: &Vec<String>,
    preserve_dir_structure: bool,
    create_video_subdir: bool,
) -> (r: Vec<String>)
    ensures
        arg_texts(r@) == output_dir_spec(
            arg_texts(video_path@),
            arg_texts(input_root@),
            arg_texts(output_root@),
            preserve_dir_structure,
            create_video_subdir,
        ),
{
    let ghost video = arg_texts(video_path@);
    let mut out: Vec<String> = Vec::new();
    clone_parts(output_root, 0, output_root.len(), &mut out);
    assert(arg_texts(output_root@).subrange(0, output_root.len() as int) =~= arg_texts(
        output_root@,
    ));
    assert(arg_texts(out@) =~= arg_texts(output_root@));
    if preserve_dir_structure && video_path.len() > 0 {
        let parent_len = video_path.len() - 1;
        assert(video.drop_last() =~= arg_texts(video_path@).subrange(0, parent_len as int));
        if parts_prefix(input_root, video_path, parent_len) {
            clone_parts(video_path, input_root.len(), parent_len, &mut out);
            assert(video.drop_last().skip(input_root.len() as int) =~= arg_texts(
                video_path@,
            ).subrange(input_root.len() as int, parent_len as int));
        }
    }
    if create_video_subdir && video_path.len() > 0 {
        let name = video_path[video_path.len() - 1].as_str();
        assert(name@ == video.last());
        if let Some(stem) = file_stem(name) {
            crate::text::push_arg(&mut out, stem);
        }
    }
    out
}

/// A path rendered as text, its components joined by `sep`.
pub fn render_path(parts: &Vec<String>, sep: char) -> (r: String)
    ensures
        r@ == rendered(arg_texts(parts@), sep),
{
    let mut out = String::new();
    let mut k: usize = 0;
    while k < parts.len()
        invariant
            k <= parts.len(),
            out@ == rendered(arg_texts(parts@).subrange(0, k as int), sep),
        decreases parts.len() - k,
    {
        let ghost pre = arg_texts(parts@).subrange(0, k as int);
        let ghost next = arg_texts(parts@).subrange(0, k + 1);
        assert(next.drop_last() =~= pre);
        let n = out.as_str().unicode_len();
        let needs_sep = n > 0 && out.as_str().get_char(n - 1) != sep;
        if needs_sep {
            push_char(&mut out, sep);
        }
        append_str(&mut out, parts[k].as_str());
        k = k + 1;
    }
    assert(arg_texts(parts@).subrange(0, parts.len() as int) =~= arg_texts(parts@));
    out
}


/// Without structure preservation and per-video subdirectories, every video
/// goes to the output root itself, however deep it lies.
pub proof fn lemma_flat_layout_keeps_output_root(
    video: Seq<Seq<char>>,
    input_root: Seq<Seq<char>>,
    output_root: Seq<Seq<char>>,
)
    ensures
        output_dir_spec(video, input_root, output_root, false, false) == output_root,
{
}

/// Output-path resolution is a function of its inputs: two resolutions of
/// the same video under the same roots and options agree.
pub proof fn lemma_output_dir_deterministic(
    video: Seq<Seq<char>>,
    input_root: Seq<Seq<char>>,
    output_root: Seq<Seq<char>>,
    preserve: bool,
    subdir: bool,
    first: Seq<Seq<char>>,
    second: Seq<Seq<char>>,
)
    requires
        first == output_dir_spec(video, input_root, output_root, preserve, subdir),
        second == output_dir_spec(video, input_root, output_root, preserve, subdir),
    ensures
        first == second,
{
}

} // verus!
