use frame_extractor::probe::{
    is_network_path, parse_duration, parse_fps, probe_args, probe_metadata, probe_timeout_secs,
    ProbeError, ProbeReport,
};

fn finished(text: &str) -> ProbeReport {
    ProbeReport::Finished { diagnostics: text.to_string() }
}

#[test]
fn duration_exact_in_hundredths() {
    assert_eq!(parse_duration("Duration: 01:02:03.45"), Some(372345));
    assert_eq!(parse_duration("Duration: 01:02:03.45") .map(|c| c as f64 / 100.0), Some(3723.45));
}

#[test]
fn duration_inside_diagnostics() {
    let text = "Input #0, mov,mp4\n  Duration: 00:01:35.00, start: 0.000000, bitrate: 1205 kb/s\n";
    assert_eq!(parse_duration(text), Some(9500));
    assert_eq!(parse_duration("Duration:00:00:01.50"), Some(150));
    assert_eq!(parse_duration("Duration:\t\u{a0} 00:00:02.00"), Some(200));
}

#[test]
fn duration_absent_or_malformed() {
    assert_eq!(parse_duration(""), None);
    assert_eq!(parse_duration("Duration: N/A, bitrate: N/A"), None);
    assert_eq!(parse_duration("Duration: 1:02:03.45"), None);
    assert_eq!(parse_duration("duration: 01:02:03.45"), None);
}

#[test]
fn duration_leftmost_wins() {
    assert_eq!(parse_duration("Duration: N/A Duration: 00:00:10.00 Duration: 00:00:20.00"), Some(1000));
}

#[test]
fn fps_numeral() {
    assert_eq!(parse_fps("29.97 fps").as_deref(), Some("29.97"));
    assert_eq!(parse_fps("Stream #0:0: Video: h264, 1920x1080, 25 tbr, 30fps").as_deref(), Some("30"));
    assert_eq!(parse_fps("12. fps").as_deref(), Some("12."));
    assert_eq!(parse_fps("a 1.5 fps, 2 fps").as_deref(), Some("1.5"));
}

#[test]
fn fps_absent() {
    assert_eq!(parse_fps("no rate here"), None);
    assert_eq!(parse_fps("fps"), None);
    assert_eq!(parse_fps("25 tbr"), None);
}

#[test]
fn probe_defaults_when_nothing_parses() {
    let m = probe_metadata(false, finished("garbage")).ok().unwrap();
    assert_eq!(m.duration_cs, 0);
    assert_eq!(m.frame_rate, "30");
}

#[test]
fn probe_reads_both_values() {
    let m = probe_metadata(false, finished("Duration: 00:00:09.50, 29.97 fps")).ok().unwrap();
    assert_eq!(m.duration_cs, 950);
    assert_eq!(m.frame_rate, "29.97");
}

#[test]
fn remote_timeout_degrades() {
    let m = probe_metadata(true, ProbeReport::TimedOut).ok().unwrap();
    assert_eq!(m.duration_cs, 360000);
    assert_eq!(m.frame_rate, "30");
}

#[test]
fn local_timeout_fails() {
    assert!(matches!(probe_metadata(false, ProbeReport::TimedOut), Err(ProbeError::Timeout)));
}

#[test]
fn spawn_failure_fails() {
    let r = probe_metadata(true, ProbeReport::SpawnFailed { message: "not found".to_string() });
    match r {
        Err(ProbeError::Spawn { message }) => assert_eq!(message, "not found"),
        _ => panic!("expected a spawn error"),
    }
}

#[test]
fn probe_arguments_local_and_remote() {
    assert_eq!(probe_args("a.mp4", false), vec!["-i", "a.mp4", "-f", "null", "-"]);
    assert_eq!(
        probe_args("//srv/a.mp4", true),
        vec![
            "-analyzeduration", "5000000", "-probesize", "2097152", "-readrate", "10M", "-i",
            "//srv/a.mp4", "-f", "null", "-"
        ]
    );
    assert_eq!(probe_timeout_secs(true), 30);
    assert_eq!(probe_timeout_secs(false), 15);
}

#[test]
fn network_paths() {
    assert!(is_network_path("\\\\server\\share\\a.mp4"));
    assert!(is_network_path("//server/share/a.mp4"));
    assert!(!is_network_path("/local/a.mp4"));
    assert!(!is_network_path("C:\\v\\a.mp4"));
    assert!(!is_network_path("\\"));
    assert!(!is_network_path(""));
}
