use ytgui::binaries::{
    entry_step, EntryStep,
    after_unpack, binary_name, binary_status, ffmpeg_source, install_outcome, unpack_arguments, unpack_program,
    ytdlp_download_url, AfterUnpack, Finding, Platform, Probe, Resolution, Resolver, Stage, Step, Tool, Unpack,
};

#[test]
fn program_names() {
    assert_eq!(binary_name(Tool::Ytdlp, Platform::Windows), "yt-dlp.exe");
    assert_eq!(binary_name(Tool::Ytdlp, Platform::Linux), "yt-dlp");
    assert_eq!(binary_name(Tool::Ytdlp, Platform::MacOs), "yt-dlp");
    assert_eq!(binary_name(Tool::Ffmpeg, Platform::Windows), "ffmpeg.exe");
    assert_eq!(binary_name(Tool::Ffmpeg, Platform::Other), "ffmpeg");
}

#[test]
fn ytdlp_sources() {
    assert!(ytdlp_download_url(Platform::Windows).ends_with("/yt-dlp.exe"));
    assert!(ytdlp_download_url(Platform::MacOs).ends_with("/yt-dlp_macos"));
    assert!(ytdlp_download_url(Platform::Linux).ends_with("/yt-dlp_linux"));
    assert!(ytdlp_download_url(Platform::Other).ends_with("/yt-dlp_linux"));
}

#[test]
fn ffmpeg_sources() {
    let mac = ffmpeg_source(Platform::MacOs).unwrap();
    assert_eq!(mac.url, "https://evermeet.cx/ffmpeg/getrelease/ffmpeg/zip");
    assert_eq!(mac.unpack, Unpack::Unzip);
    assert!(mac.scratch_dir.is_none() && mac.locate.is_none());
    let linux = ffmpeg_source(Platform::Linux).unwrap();
    assert_eq!(linux.archive, "ffmpeg_tmp.tar.xz");
    assert_eq!(linux.scratch_dir, Some("ffmpeg_extract"));
    assert_eq!(linux.locate, Some("ffmpeg"));
    let win = ffmpeg_source(Platform::Windows).unwrap();
    assert_eq!(win.unpack, Unpack::ExpandArchive);
    assert_eq!(win.locate, Some("ffmpeg.exe"));
    assert!(ffmpeg_source(Platform::Other).is_none());
}

#[test]
fn unpack_commands() {
    assert_eq!(unpack_program(Unpack::Unzip), "unzip");
    assert_eq!(unpack_arguments(Unpack::Unzip, "/b/ffmpeg_tmp.zip", "/b"), vec!["-o", "/b/ffmpeg_tmp.zip", "-d", "/b"]);
    assert_eq!(unpack_program(Unpack::Tar), "tar");
    assert_eq!(unpack_arguments(Unpack::Tar, "a.tar.xz", "x"), vec!["-xf", "a.tar.xz", "-C", "x"]);
    assert_eq!(unpack_program(Unpack::ExpandArchive), "powershell");
    assert_eq!(
        unpack_arguments(Unpack::ExpandArchive, "C:\\b\\f.zip", "C:\\b\\x"),
        vec!["-Command", "Expand-Archive -Path 'C:\\b\\f.zip' -DestinationPath 'C:\\b\\x' -Force"]
    );
}

#[test]
fn after_unpacking() {
    let mac = ffmpeg_source(Platform::MacOs).unwrap();
    assert!(matches!(after_unpack(&mac, true, true), AfterUnpack::Proceed));
    match after_unpack(&mac, true, false) {
        AfterUnpack::Fail(m) => assert_eq!(m, "ffmpeg arşivden çıkarılamadı"),
        _ => panic!("expected failure"),
    }
    assert!(matches!(after_unpack(&mac, false, true), AfterUnpack::Fail(_)));
    let linux = ffmpeg_source(Platform::Linux).unwrap();
    assert!(matches!(after_unpack(&linux, true, false), AfterUnpack::Locate("ffmpeg")));
    assert!(matches!(after_unpack(&linux, false, false), AfterUnpack::Proceed));
    assert_eq!(install_outcome(true), Ok(()));
    assert_eq!(install_outcome(false), Err("ffmpeg indirilemedi — lütfen manuel olarak yükleyin".to_string()));
}

fn probe(s: Step<&'static str>) -> Probe {
    match s {
        Step::Probe(p) => p,
        Step::Done(_) => panic!("search ended early"),
    }
}

fn done(s: Step<&'static str>) -> Resolution<&'static str> {
    match s {
        Step::Done(r) => r,
        Step::Probe(_) => panic!("search not over"),
    }
}

#[test]
fn remembered_file_is_used() {
    let mut r = Resolver::new(Tool::Ytdlp);
    match done(r.advance(Finding::Cache(Some(("/c/yt-dlp", true))))) {
        Resolution::Found { path, remember } => {
            assert_eq!(path, "/c/yt-dlp");
            assert!(!remember);
        },
        _ => panic!(),
    }
    assert_eq!(r.stage, Stage::Finished);
}

#[test]
fn stale_cache_then_path() {
    let mut r = Resolver::new(Tool::Ytdlp);
    assert_eq!(probe(r.advance(Finding::Cache(Some(("/gone", false))))), Probe::SearchPath);
    match done(r.advance(Finding::Path(Some("/usr/bin/yt-dlp")))) {
        Resolution::Found { path, remember } => {
            assert_eq!(path, "/usr/bin/yt-dlp");
            assert!(remember);
        },
        _ => panic!(),
    }
}

#[test]
fn app_dir_error_stops_ytdlp_but_not_ffmpeg() {
    let mut r = Resolver::new(Tool::Ytdlp);
    assert_eq!(probe(r.advance(Finding::Cache(None))), Probe::SearchPath);
    assert_eq!(probe(r.advance(Finding::Path(None))), Probe::CheckAppData);
    match done(r.advance(Finding::AppData(Err("mkdir: denied".to_string())))) {
        Resolution::Failed(e) => assert_eq!(e, "mkdir: denied"),
        _ => panic!(),
    }
    let mut f = Resolver::new(Tool::Ffmpeg);
    f.advance::<&str>(Finding::Cache(None));
    f.advance::<&str>(Finding::Path(None));
    assert_eq!(probe(f.advance(Finding::AppData(Err("mkdir: denied".to_string())))), Probe::Download);
    match done(f.advance(Finding::Download(Err("offline".to_string())))) {
        Resolution::Unavailable(e) => assert_eq!(e, "offline"),
        _ => panic!(),
    }
}

#[test]
fn local_copy_then_download() {
    let mut r = Resolver::new(Tool::Ffmpeg);
    r.advance::<&str>(Finding::Cache(None));
    r.advance::<&str>(Finding::Path(None));
    assert_eq!(probe(r.advance(Finding::AppData(Ok(("/d/ffmpeg", false))))), Probe::Download);
    assert_eq!(r.stage, Stage::Download);
    match done(r.advance(Finding::Download(Ok("/d/ffmpeg")))) {
        Resolution::Found { path, remember } => {
            assert_eq!(path, "/d/ffmpeg");
            assert!(remember);
        },
        _ => panic!(),
    }
    let mut y = Resolver::new(Tool::Ytdlp);
    y.advance::<&str>(Finding::Cache(None));
    y.advance::<&str>(Finding::Path(None));
    match done(y.advance(Finding::AppData(Ok(("/d/yt-dlp", true))))) {
        Resolution::Found { path, .. } => assert_eq!(path, "/d/yt-dlp"),
        _ => panic!(),
    }
    let mut z = Resolver::new(Tool::Ytdlp);
    z.advance::<&str>(Finding::Cache(None));
    z.advance::<&str>(Finding::Path(None));
    z.advance::<&str>(Finding::AppData(Ok(("/d/yt-dlp", false))));
    match done(z.advance(Finding::Download(Err("Failed to download yt-dlp: 404".to_string())))) {
        Resolution::Failed(e) => assert_eq!(e, "Failed to download yt-dlp: 404"),
        _ => panic!(),
    }
}

#[test]
fn status_of_remembered_programs() {
    let s = binary_status(&Some("/a"), &None);
    assert!(s.ytdlp && !s.ffmpeg);
}

#[test]
fn unpack_failure_messages() {
    assert_eq!(ytgui::binaries::unpack_failure(Unpack::ExpandArchive, "not found"), "PowerShell çalıştırılamadı: not found");
    assert_eq!(ytgui::binaries::unpack_failure(Unpack::Unzip, "x"), "unzip çalıştırılamadı: x");
    assert_eq!(ytgui::binaries::unpack_failure(Unpack::Tar, "x"), "tar çalıştırılamadı: x");
}

#[test]
fn directory_entry_steps() {
    assert_eq!(entry_step(true, false, Some("ffmpeg"), "ffmpeg"), EntryStep::Found);
    assert_eq!(entry_step(true, false, Some("ffprobe"), "ffmpeg"), EntryStep::Skip);
    assert_eq!(entry_step(false, true, Some("ffmpeg"), "ffmpeg"), EntryStep::Descend);
    assert_eq!(entry_step(true, false, None, "ffmpeg"), EntryStep::Skip);
    assert_eq!(entry_step(false, false, Some("ffmpeg"), "ffmpeg"), EntryStep::Skip);
}
