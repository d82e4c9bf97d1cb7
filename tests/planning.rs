use frame_extractor::frames::{
    artifact_name, extract_args, output_pattern_name, select_filter_text, total_frames,
    verified_frame_count,
};
use frame_extractor::locate::{decoder_candidates, select_decoder, version_args};
use frame_extractor::paths::{file_stem, get_output_dir_for_video, has_video_extension, render_path};
use frame_extractor::text::{chars_of, decimal_text};

fn parts(v: &[&str]) -> Vec<String> {
    v.iter().map(|s| s.to_string()).collect()
}

#[test]
fn frame_count_rounds_up() {
    assert_eq!(total_frames(9500, 5, 10), 9);
    assert_eq!(total_frames(9501, 5, 10), 10);
    assert_eq!(total_frames(10500, 5, 10), 10);
    assert_eq!(total_frames(372345, 0, 60), 63);
}

#[test]
fn frame_count_zero_when_skip_covers_video() {
    assert_eq!(total_frames(500, 5, 10), 0);
    assert_eq!(total_frames(300, 5, 10), 0);
    assert_eq!(total_frames(0, 0, 1), 0);
}

#[test]
fn frame_count_large_skip_does_not_overflow() {
    assert_eq!(total_frames(u64::MAX, u64::MAX, 1), 0);
    assert_eq!(total_frames(u64::MAX, 0, 1), (u64::MAX - 1) / 100 + 1);
}

#[test]
fn filter_text_matches_selection_expression() {
    assert_eq!(select_filter_text(5, 10), "select='gte(t,5)*lt(mod(t-5,10),0.1)'");
    assert_eq!(select_filter_text(0, 3), "select='gte(t,0)*lt(mod(t-0,3),0.1)'");
}

#[test]
fn extraction_arguments() {
    let args = extract_args(5, 10, "/in/a.mp4", "/out/a_%04d.jpg");
    assert_eq!(
        args,
        vec![
            "-ss", "5", "-i", "/in/a.mp4", "-vf", "select='gte(t,5)*lt(mod(t-5,10),0.1)'",
            "-vsync", "vfr", "-q:v", "2", "-y", "/out/a_%04d.jpg"
        ]
    );
}

#[test]
fn artifact_names_are_zero_padded() {
    assert_eq!(artifact_name("clip", 1), "clip_0001.jpg");
    assert_eq!(artifact_name("clip", 42), "clip_0042.jpg");
    assert_eq!(artifact_name("clip", 9999), "clip_9999.jpg");
    assert_eq!(artifact_name("clip", 12345), "clip_12345.jpg");
    assert_eq!(output_pattern_name("clip"), "clip_%04d.jpg");
}

#[test]
fn decimal_rendering() {
    assert_eq!(decimal_text(0), "0");
    assert_eq!(decimal_text(7), "7");
    assert_eq!(decimal_text(1234567890), "1234567890");
    assert_eq!(decimal_text(u64::MAX), "18446744073709551615");
}

#[test]
fn chars_of_keeps_every_character() {
    assert_eq!(chars_of("a\u{e9}b"), vec!['a', '\u{e9}', 'b']);
    assert!(chars_of("").is_empty());
}

#[test]
fn verified_count_stops_at_first_missing_artifact() {
    assert_eq!(verified_frame_count(&vec![true, true, true, false, false]), 3);
    assert_eq!(verified_frame_count(&vec![true, false, true]), 1);
    assert_eq!(verified_frame_count(&vec![false, true]), 0);
    assert_eq!(verified_frame_count(&vec![]), 0);
    assert_eq!(verified_frame_count(&vec![true, true]), 2);
}

#[test]
fn flat_layout_keeps_output_root() {
    let out = parts(&["/", "out"]);
    let root = parts(&["/", "in"]);
    for video in [
        parts(&["/", "in", "a.mp4"]),
        parts(&["/", "in", "x", "y", "z", "b.mp4"]),
        parts(&["/", "elsewhere", "c.mp4"]),
    ] {
        let first = get_output_dir_for_video(&video, &root, &out, false, false);
        let second = get_output_dir_for_video(&video, &root, &out, false, false);
        assert_eq!(first, out);
        assert_eq!(first, second);
    }
}

#[test]
fn preserved_structure_and_subdirectory() {
    let out = parts(&["/", "out"]);
    let root = parts(&["/", "in"]);
    let video = parts(&["/", "in", "day1", "cam", "clip.final.mp4"]);
    assert_eq!(
        get_output_dir_for_video(&video, &root, &out, true, false),
        parts(&["/", "out", "day1", "cam"])
    );
    assert_eq!(
        get_output_dir_for_video(&video, &root, &out, false, true),
        parts(&["/", "out", "clip.final"])
    );
    assert_eq!(
        get_output_dir_for_video(&video, &root, &out, true, true),
        parts(&["/", "out", "day1", "cam", "clip.final"])
    );
}

#[test]
fn video_outside_input_root_falls_back_to_output_root() {
    let out = parts(&["/", "out"]);
    let root = parts(&["/", "in"]);
    let video = parts(&["/", "other", "d", "v.mp4"]);
    assert_eq!(get_output_dir_for_video(&video, &root, &out, true, false), out);
    assert_eq!(
        get_output_dir_for_video(&video, &root, &out, true, true),
        parts(&["/", "out", "v"])
    );
}

#[test]
fn file_stems() {
    assert_eq!(file_stem("clip.mp4").as_deref(), Some("clip"));
    assert_eq!(file_stem("a.b.mp4").as_deref(), Some("a.b"));
    assert_eq!(file_stem("noext").as_deref(), Some("noext"));
    assert_eq!(file_stem(".hidden").as_deref(), Some(".hidden"));
    assert_eq!(file_stem("trail.").as_deref(), Some("trail"));
    assert_eq!(file_stem(".."), None);
    assert_eq!(file_stem(""), None);
}

#[test]
fn video_extension_is_exact() {
    assert!(has_video_extension("a.mp4"));
    assert!(has_video_extension("a.b.mp4"));
    assert!(!has_video_extension("a.MP4"));
    assert!(!has_video_extension("a.mp4.bak"));
    assert!(!has_video_extension(".mp4"));
    assert!(!has_video_extension("mp4"));
}

#[test]
fn rendering_paths() {
    assert_eq!(render_path(&parts(&["/", "out", "a"]), '/'), "/out/a");
    assert_eq!(render_path(&parts(&["C:\\", "v", "x.mp4"]), '\\'), "C:\\v\\x.mp4");
    assert_eq!(render_path(&parts(&["rel", "b"]), '/'), "rel/b");
    assert_eq!(render_path(&parts(&[]), '/'), "");
}

#[test]
fn decoder_candidates_in_priority_order() {
    let dir = parts(&["/", "app", "bin2"]);
    let c = decoder_candidates(Some(&dir));
    assert_eq!(c.len(), 10);
    assert_eq!(c[0], parts(&["src-tauri", "bin", "ffmpeg.exe"]));
    assert_eq!(c[1], parts(&["bin", "ffmpeg.exe"]));
    assert_eq!(c[2], parts(&["/", "app", "bin2", "ffmpeg.exe"]));
    assert_eq!(c[3], parts(&["/", "app", "bin2", "ffmpeg.exe.exe"]));
    assert_eq!(c[4], parts(&["/", "app", "bin2", "bin", "ffmpeg.exe"]));
    assert_eq!(c[7], parts(&["/", "app", "bin2", "resources", "bin", "ffmpeg.exe.exe"]));
    assert_eq!(c[8], parts(&["/", "app", "resources", "bin", "ffmpeg.exe"]));
    assert_eq!(c[9], parts(&["/", "app", "resources", "bin", "ffmpeg.exe.exe"]));
    assert_eq!(decoder_candidates(None).len(), 2);
}

#[test]
fn decoder_choice_takes_first_existing_or_bare_name() {
    let dir = parts(&["/", "app"]);
    let c = decoder_candidates(Some(&dir));
    let mut present = vec![false; c.len()];
    present[5] = true;
    present[7] = true;
    assert_eq!(select_decoder(&c, &present), c[5]);
    assert_eq!(select_decoder(&c, &vec![false; c.len()]), parts(&["ffmpeg"]));
    assert_eq!(version_args(), vec!["-version"]);
}
