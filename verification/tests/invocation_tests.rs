use ytgui::invocation::{download_arguments, failure_message, info_arguments, info_document, output_template, Failure};

#[test]
fn info_query_arguments() {
    assert_eq!(info_arguments("https://youtu.be/abc"), vec!["https://youtu.be/abc", "--dump-json", "--no-playlist"]);
}

#[test]
fn template_under_directory() {
    assert_eq!(output_template("/home/u/Videos"), "/home/u/Videos/%(title)s.%(ext)s");
}

const BASE: [&str; 7] = [
    "https://youtu.be/abc",
    "-o",
    "/tmp/out/%(title)s.%(ext)s",
    "--newline",
    "--progress",
    "--no-playlist",
    "--no-mtime",
];

fn with(extra: &[&str]) -> Vec<String> {
    BASE.iter().chain(extra.iter()).map(|s| s.to_string()).collect()
}

#[test]
fn audio_only_download_converts_to_mp3() {
    let args = download_arguments("https://youtu.be/abc", "bestvideo[height<=720]", "/tmp/out", true, None);
    assert_eq!(args, with(&["-x", "--audio-format", "mp3", "-f", "bestaudio/best"]));
}

#[test]
fn chosen_format_is_passed_on() {
    let args = download_arguments("https://youtu.be/abc", "bestvideo[height<=720]", "/tmp/out", false, None);
    assert_eq!(args, with(&["-f", "bestvideo[height<=720]"]));
}

#[test]
fn empty_format_means_best() {
    let args = download_arguments("https://youtu.be/abc", "", "/tmp/out", false, Some("/usr/bin/ffmpeg"));
    assert_eq!(
        args,
        with(&["-f", "bestvideo+bestaudio/best", "--ffmpeg-location", "/usr/bin/ffmpeg"])
    );
}

#[test]
fn failed_query_reports_last_error_line() {
    let r = info_document(false, "", "WARNING: x\nERROR: Unsupported URL\n");
    assert_eq!(r, Err("yt-dlp hatası: ERROR: Unsupported URL".to_string()));
}

#[test]
fn failed_query_without_error_output() {
    assert_eq!(info_document(false, "{}", ""), Err("yt-dlp hatası: Bilinmeyen hata".to_string()));
}

#[test]
fn successful_query_gives_first_line() {
    assert_eq!(info_document(true, "{\"title\":\"a\"}\n{\"title\":\"b\"}\n", "noise"), Ok("{\"title\":\"a\"}".to_string()));
}

#[test]
fn successful_query_with_no_output() {
    assert_eq!(info_document(true, "", ""), Err("yt-dlp boş çıktı verdi".to_string()));
}

#[test]
fn failure_messages() {
    assert_eq!(failure_message(Failure::Run, "No such file"), "yt-dlp çalıştırılamadı: No such file");
    assert_eq!(failure_message(Failure::Start, "denied"), "yt-dlp başlatılamadı: denied");
    assert_eq!(failure_message(Failure::JsonParse, "EOF"), "JSON parse hatası: EOF");
}
