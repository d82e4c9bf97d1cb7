use frame_extractor::batch::{
    progress_percentage, summarize, Action, Batch, BatchError, JobConfig, ProcessResult, Stage,
};
use frame_extractor::probe::ProbeReport;

fn parts(v: &[&str]) -> Vec<String> {
    v.iter().map(|s| s.to_string()).collect()
}

fn config(interval: u64) -> JobConfig {
    JobConfig {
        input_root: parts(&["/", "in"]),
        output_root: parts(&["/", "out"]),
        skip_start_sec: 5,
        frame_interval_sec: interval,
        preserve_dir_structure: false,
        create_video_subdir: true,
        separator: '/',
    }
}

fn through_preflight(b: &mut Batch, videos: Vec<Vec<String>>) -> Action {
    assert!(matches!(b.start(), Action::VerifyDecoder));
    match b.on_decoder_checked(true) {
        Action::CheckInputRoot { path } => assert_eq!(path, "/in"),
        _ => panic!("expected an input root check"),
    }
    match b.on_input_root_checked(true) {
        Action::Discover { path } => assert_eq!(path, "/in"),
        _ => panic!("expected discovery"),
    }
    b.on_discovered(Ok(videos))
}

fn probe_ok(b: &mut Batch, diagnostics: &str) -> Action {
    match b.on_dir_created(None) {
        Action::Probe { .. } => {}
        _ => panic!("expected a probe"),
    }
    b.on_probed(ProbeReport::Finished { diagnostics: diagnostics.to_string() })
}

#[test]
fn zero_interval_is_rejected() {
    let mut b = Batch::new(config(0));
    assert!(matches!(b.start(), Action::Abort { error: BatchError::ZeroInterval }));
    assert!(b.stage == Stage::Failed);
}

#[test]
fn missing_decoder_aborts() {
    let mut b = Batch::new(config(10));
    b.start();
    assert!(matches!(
        b.on_decoder_checked(false),
        Action::Abort { error: BatchError::DecoderUnavailable }
    ));
    assert!(b.results.is_empty());
}

#[test]
fn missing_input_root_aborts() {
    let mut b = Batch::new(config(10));
    b.start();
    b.on_decoder_checked(true);
    assert!(matches!(
        b.on_input_root_checked(false),
        Action::Abort { error: BatchError::InputRootMissing }
    ));
}

#[test]
fn empty_discovery_aborts() {
    let mut b = Batch::new(config(10));
    assert!(matches!(
        through_preflight(&mut b, vec![]),
        Action::Abort { error: BatchError::NoVideosFound }
    ));
    let mut b = Batch::new(config(10));
    b.start();
    b.on_decoder_checked(true);
    b.on_input_root_checked(true);
    match b.on_discovered(Err("denied".to_string())) {
        Action::Abort { error: BatchError::DiscoveryFailed { message } } => {
            assert_eq!(message, "denied")
        }
        _ => panic!("expected a discovery failure"),
    }
}

#[test]
fn one_failed_extraction_does_not_stop_the_batch() {
    let mut b = Batch::new(config(10));
    let videos = vec![
        parts(&["/", "in", "a.mp4"]),
        parts(&["/", "in", "sub", "b.mp4"]),
        parts(&["/", "in", "c.mp4"]),
    ];
    match through_preflight(&mut b, videos) {
        Action::CreateDir { index, total, dir } => {
            assert_eq!((index, total), (0, 3));
            assert_eq!(dir, "/out/a");
        }
        _ => panic!("expected the first video"),
    }
    // video a: 95 s, two frames found
    match probe_ok(&mut b, "Duration: 00:01:35.00, 25 fps") {
        Action::Extract { args } => {
            assert_eq!(args[0], "-ss");
            assert_eq!(args[1], "5");
            assert_eq!(args[3], "/in/a.mp4");
            assert_eq!(args[11], "/out/a/a_%04d.jpg");
        }
        _ => panic!("expected an extraction"),
    }
    match b.on_extracted(true, String::new()) {
        Action::CheckArtifact { path } => assert_eq!(path, "/out/a/a_0001.jpg"),
        _ => panic!("expected an artifact check"),
    }
    match b.on_artifact_checked(true) {
        Action::CheckArtifact { path } => assert_eq!(path, "/out/a/a_0002.jpg"),
        _ => panic!("expected an artifact check"),
    }
    b.on_artifact_checked(true);
    match b.on_artifact_checked(false) {
        Action::CreateDir { index, dir, .. } => {
            assert_eq!(index, 1);
            assert_eq!(dir, "/out/b");
        }
        _ => panic!("expected the second video"),
    }
    // video b: the decoder fails
    probe_ok(&mut b, "Duration: 00:01:35.00");
    b.on_extracted(false, "broken stream".to_string());
    // video c: succeeds with one frame
    probe_ok(&mut b, "Duration: 00:00:10.00");
    b.on_extracted(true, String::new());
    b.on_artifact_checked(true);
    assert!(matches!(b.on_artifact_checked(false), Action::Finished));
    assert!(b.stage == Stage::Completed);
    assert_eq!(b.results.len(), 3);
    assert_eq!(b.results.iter().filter(|r| !r.success).count(), 1);
    let failed = &b.results[1];
    assert_eq!(failed.video_path, "/in/sub/b.mp4");
    assert_eq!(failed.frames_extracted, 0);
    assert_eq!(
        failed.error.as_deref(),
        Some("extracting frames from /in/sub/b.mp4: broken stream")
    );
    assert_eq!(b.results[0].frames_extracted, 2);
    assert_eq!(b.results[2].frames_extracted, 1);
    let s = summarize(&b.results);
    assert_eq!((s.attempted, s.succeeded, s.frames), (3, 2, 3));
}

#[test]
fn verified_count_overrides_expected_frames() {
    // 45 s after a 5 s skip at 10 s intervals: five frames expected, three written
    let mut b = Batch::new(config(10));
    through_preflight(&mut b, vec![parts(&["/", "in", "v.mp4"])]);
    probe_ok(&mut b, "Duration: 00:00:50.00");
    b.on_extracted(true, String::new());
    b.on_artifact_checked(true);
    b.on_artifact_checked(true);
    b.on_artifact_checked(true);
    assert!(matches!(b.on_artifact_checked(false), Action::Finished));
    assert_eq!(b.results[0].frames_extracted, 3);
    assert!(b.results[0].success);
}

#[test]
fn skip_past_end_records_zero_frames_without_decoding() {
    let mut b = Batch::new(config(10));
    through_preflight(&mut b, vec![parts(&["/", "in", "short.mp4"])]);
    assert!(matches!(probe_ok(&mut b, "Duration: 00:00:04.00"), Action::Finished));
    assert_eq!(b.results[0].frames_extracted, 0);
    assert!(b.results[0].success);
    assert_eq!(b.results[0].output_dir, "/out/short");
}

#[test]
fn remote_probe_timeout_goes_on_to_extraction() {
    let mut b = Batch::new(config(10));
    through_preflight(&mut b, vec![parts(&["//nas", "share", "r.mp4"])]);
    match b.on_dir_created(None) {
        Action::Probe { args, timeout_secs } => {
            assert_eq!(timeout_secs, 30);
            assert_eq!(args[0], "-analyzeduration");
        }
        _ => panic!("expected a probe"),
    }
    assert!(matches!(b.on_probed(ProbeReport::TimedOut), Action::Extract { .. }));
}

#[test]
fn local_probe_timeout_fails_the_video_only() {
    let mut b = Batch::new(config(10));
    through_preflight(&mut b, vec![parts(&["/", "in", "x.mp4"]), parts(&["/", "in", "y.mp4"])]);
    b.on_dir_created(None);
    assert!(matches!(b.on_probed(ProbeReport::TimedOut), Action::CreateDir { index: 1, .. }));
    assert_eq!(b.results[0].error.as_deref(), Some("probing /in/x.mp4: timed out"));
}

#[test]
fn directory_failure_is_recorded() {
    let mut b = Batch::new(config(10));
    through_preflight(&mut b, vec![parts(&["/", "in", "x.mp4"])]);
    assert!(matches!(b.on_dir_created(Some("read-only".to_string())), Action::Finished));
    assert_eq!(
        b.results[0].error.as_deref(),
        Some("creating the output directory for /in/x.mp4: read-only")
    );
}

#[test]
fn percentages_round_down() {
    assert_eq!(progress_percentage(29, 100), 29);
    assert_eq!(progress_percentage(1, 3), 33);
    assert_eq!(progress_percentage(3, 3), 100);
    assert_eq!(progress_percentage(0, 0), 0);
}

#[test]
fn summary_of_results() {
    let r = |ok: bool, n: usize| ProcessResult {
        video_path: "v".to_string(),
        output_dir: "o".to_string(),
        frames_extracted: n,
        success: ok,
        error: if ok { None } else { Some("e".to_string()) },
    };
    let s = summarize(&vec![r(true, 4), r(false, 0), r(true, 6)]);
    assert_eq!((s.attempted, s.succeeded, s.frames), (3, 2, 10));
    let empty = summarize(&vec![]);
    assert_eq!((empty.attempted, empty.succeeded, empty.frames), (0, 0, 0));
}
