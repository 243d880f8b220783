use ytgui::formats::{
    build_video_info, format_menu, height_option, resolution_label_text, FormatOption, MediaFormat,
    VideoMetadata,
};

fn fmt(height: Option<i64>, vcodec: Option<&str>) -> MediaFormat {
    MediaFormat { height, vcodec: vcodec.map(String::from) }
}

fn ids(menu: &[FormatOption]) -> Vec<&str> {
    menu.iter().map(|o| o.id.as_str()).collect()
}

#[test]
fn menu_starts_with_the_two_fixed_entries() {
    let menu = format_menu(&vec![]);
    assert_eq!(menu.len(), 2);
    assert_eq!(menu[0].id, "bestvideo+bestaudio/best");
    assert_eq!(menu[0].description, "En İyi Kalite (Video + Ses)");
    assert_eq!(menu[0].note, "Otomatik");
    assert!(!menu[0].is_audio_only);
    assert_eq!(menu[1].id, "bestaudio/best");
    assert_eq!(menu[1].description, "Sadece Ses (MP3)");
    assert_eq!(menu[1].note, "En iyi ses kalitesi");
    assert!(menu[1].is_audio_only);
}

#[test]
fn menu_keeps_first_occurrence_of_each_qualifying_height() {
    let formats = vec![
        fmt(Some(240), Some("avc1")),
        fmt(Some(720), Some("avc1")),
        fmt(Some(1080), Some("none")),
        fmt(Some(360), Some("vp9")),
        fmt(Some(720), Some("vp9")),
        fmt(None, Some("avc1")),
        fmt(Some(2160), None),
        fmt(Some(1440), Some("av01")),
    ];
    let menu = format_menu(&formats);
    assert_eq!(
        ids(&menu),
        vec![
            "bestvideo+bestaudio/best",
            "bestaudio/best",
            "bestvideo[height<=720]+bestaudio/best[height<=720]",
            "bestvideo[height<=360]+bestaudio/best[height<=360]",
            "bestvideo[height<=1440]+bestaudio/best[height<=1440]",
        ]
    );
    assert_eq!(menu[2].description, "720p (HD) — Video + Ses");
    assert_eq!(menu[2].note, "Maks 720p");
    assert_eq!(menu[3].description, "SD — Video + Ses");
    assert_eq!(menu[4].description, "2K (1440p) — Video + Ses");
    assert!(menu.iter().skip(2).all(|o| !o.is_audio_only));
}

#[test]
fn resolution_labels_by_threshold() {
    assert_eq!(resolution_label_text(4320), "4K (2160p)");
    assert_eq!(resolution_label_text(2160), "4K (2160p)");
    assert_eq!(resolution_label_text(2159), "2K (1440p)");
    assert_eq!(resolution_label_text(1440), "2K (1440p)");
    assert_eq!(resolution_label_text(1080), "1080p (Full HD)");
    assert_eq!(resolution_label_text(1079), "720p (HD)");
    assert_eq!(resolution_label_text(720), "720p (HD)");
    assert_eq!(resolution_label_text(719), "SD");
    assert_eq!(resolution_label_text(360), "SD");
}

#[test]
fn height_entry_for_4k() {
    let o = height_option(2160);
    assert_eq!(o.id, "bestvideo[height<=2160]+bestaudio/best[height<=2160]");
    assert_eq!(o.description, "4K (2160p) — Video + Ses");
    assert_eq!(o.note, "Maks 2160p");
    assert!(!o.is_audio_only);
}

#[test]
fn info_uses_reported_fields() {
    let meta = VideoMetadata {
        title: Some("Clip".into()),
        thumbnail: Some("https://img/x.jpg".into()),
        duration: Some(212),
        uploader: Some("Someone".into()),
        webpage_url: Some("https://www.youtube.com/watch?v=abc".into()),
        formats: Some(vec![fmt(Some(1080), Some("avc1"))]),
    };
    let info = build_video_info(&meta, "https://youtu.be/abc");
    assert_eq!(info.title, "Clip");
    assert_eq!(info.thumbnail, "https://img/x.jpg");
    assert_eq!(info.duration, 212);
    assert_eq!(info.uploader, "Someone");
    assert_eq!(info.webpage_url, "https://www.youtube.com/watch?v=abc");
    assert_eq!(info.formats.len(), 3);
    assert_eq!(info.formats[2].description, "1080p (Full HD) — Video + Ses");
}

#[test]
fn info_defaults_for_missing_fields() {
    let meta = VideoMetadata {
        title: None,
        thumbnail: None,
        duration: None,
        uploader: None,
        webpage_url: None,
        formats: None,
    };
    let info = build_video_info(&meta, "https://youtu.be/abc");
    assert_eq!(info.title, "Bilinmeyen");
    assert_eq!(info.thumbnail, "");
    assert_eq!(info.duration, 0);
    assert_eq!(info.uploader, "Bilinmeyen");
    assert_eq!(info.webpage_url, "https://youtu.be/abc");
    assert_eq!(ids(&info.formats), vec!["bestvideo+bestaudio/best", "bestaudio/best"]);
}
