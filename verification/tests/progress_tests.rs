use ytgui::progress::{
    cancelled_event, finished_event, is_processing_line, is_reported_error, line_event, DownloadProgress,
    DownloadStatus, LineClassifier,
};

fn fields(e: &DownloadProgress) -> (&str, &str, &str, &str, DownloadStatus) {
    (e.percent.as_str(), e.speed.as_str(), e.eta.as_str(), e.total_size.as_str(), e.status)
}

#[test]
fn progress_line_gives_its_fields() {
    let c = LineClassifier::new().unwrap();
    let e = c.classify("[download]  45.3% of   10.00MiB at    1.20MiB/s ETA 00:07").unwrap();
    assert_eq!(fields(&e), ("45.3", "1.20MiB", "00:07", "10.00MiB", DownloadStatus::Downloading));
}

#[test]
fn whole_percentage_progress_line() {
    let c = LineClassifier::new().unwrap();
    let e = c.classify("[download] 100% of ~ 5.01MiB at 3.00KiB/s ETA Unknown (frag 3/4)").unwrap();
    assert_eq!(fields(&e), ("100", "3.00KiB", "Unknown (frag 3/4)", "~ 5.01MiB", DownloadStatus::Downloading));
}

#[test]
fn already_downloaded_lines() {
    let c = LineClassifier::new().unwrap();
    let e = c.classify("[download] /tmp/x.mp4 has already been downloaded").unwrap();
    assert_eq!(fields(&e), ("100", "—", "00:00", "—", DownloadStatus::AlreadyExists));
    let e = c.classify("File ALREADY EXISTS here").unwrap();
    assert_eq!(e.status, DownloadStatus::AlreadyExists);
}

#[test]
fn processing_lines() {
    let c = LineClassifier::new().unwrap();
    for line in [
        "[Merger] Merging formats into \"x.mkv\"",
        "[ExtractAudio] Destination: x.mp3",
        "[ffmpeg] Fixing container",
    ] {
        let e = c.classify(line).unwrap();
        assert_eq!(fields(&e), ("99", "—", "—", "—", DownloadStatus::Processing));
    }
}

#[test]
fn other_lines_give_no_event() {
    let c = LineClassifier::new().unwrap();
    assert!(c.classify("[youtube] abc: Downloading webpage").is_none());
    assert!(c.classify("[download] Destination: x.mp4").is_none());
    assert!(c.classify("").is_none());
}

#[test]
fn progress_wins_over_processing_words() {
    let c = LineClassifier::new().unwrap();
    let e = c.classify("[download]  1.0% of 2MiB at 1KiB/s ETA Merging").unwrap();
    assert_eq!(e.status, DownloadStatus::Downloading);
    assert_eq!(e.eta, "Merging");
}

#[test]
fn line_event_from_given_matches() {
    let groups = Some(vec![
        Some("whole".to_string()),
        Some("12.5".to_string()),
        Some("3MiB".to_string()),
        Some("1MiB".to_string()),
        Some("00:02".to_string()),
    ]);
    let e = line_event(&groups, true, "Merging").unwrap();
    assert_eq!(fields(&e), ("12.5", "1MiB", "00:02", "3MiB", DownloadStatus::Downloading));
    let partial = Some(vec![Some("whole".to_string()), None]);
    assert_eq!(line_event(&partial, true, "x").unwrap().status, DownloadStatus::AlreadyExists);
    assert_eq!(line_event(&None, false, "Merging").unwrap().status, DownloadStatus::Processing);
    assert!(line_event(&None, false, "x").is_none());
}

#[test]
fn processing_words() {
    assert!(is_processing_line("x ExtractAudio y"));
    assert!(!is_processing_line("merging"));
}

#[test]
fn reported_error_lines() {
    assert!(is_reported_error("ERROR: unavailable"));
    assert!(is_reported_error("HTTP Error 403"));
    assert!(is_reported_error("WARNING: slow"));
    assert!(!is_reported_error("error: lower case"));
    assert!(!is_reported_error("[info] fine"));
}

#[test]
fn fixed_events() {
    assert_eq!(fields(&finished_event()), ("100", "—", "00:00", "—", DownloadStatus::Done));
    assert_eq!(fields(&cancelled_event()), ("0", "—", "—", "—", DownloadStatus::Cancelled));
    assert_eq!(DownloadStatus::AlreadyExists.name(), "already_exists");
    assert_eq!(DownloadStatus::Downloading.name(), "downloading");
    assert_eq!(DownloadStatus::Processing.name(), "processing");
    assert_eq!(DownloadStatus::Done.name(), "done");
    assert_eq!(DownloadStatus::Cancelled.name(), "cancelled");
}
