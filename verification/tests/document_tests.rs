use ytgui::formats::{read_metadata, video_info_from_document};

#[test]
fn document_fields_are_read() {
    let doc = r#"{"title":"Clip","thumbnail":"t.jpg","duration":212,"uploader":"Someone","webpage_url":"https://w/x","formats":[{"height":720,"vcodec":"avc1"},{"height":240,"vcodec":"avc1"},{"height":1080,"vcodec":"none"},{"vcodec":"vp9"},{"height":720.5,"vcodec":"vp9"}]}"#;
    let m = read_metadata(doc).unwrap();
    assert_eq!(m.title.as_deref(), Some("Clip"));
    assert_eq!(m.thumbnail.as_deref(), Some("t.jpg"));
    assert_eq!(m.duration, Some(212));
    assert_eq!(m.uploader.as_deref(), Some("Someone"));
    assert_eq!(m.webpage_url.as_deref(), Some("https://w/x"));
    let fs = m.formats.unwrap();
    assert_eq!(fs.len(), 5);
    assert_eq!(fs[0].height, Some(720));
    assert_eq!(fs[0].vcodec.as_deref(), Some("avc1"));
    assert_eq!(fs[2].vcodec.as_deref(), Some("none"));
    assert_eq!(fs[3].height, None);
    assert_eq!(fs[4].height, None);
}

#[test]
fn fractional_duration_and_wrong_types_read_as_absent() {
    let m = read_metadata(r#"{"title":5,"duration":212.4,"formats":"no"}"#).unwrap();
    assert!(m.title.is_none());
    assert!(m.duration.is_none());
    assert!(m.formats.is_none());
}

#[test]
fn non_object_document_reads_as_empty() {
    let m = read_metadata("[1, 2]").unwrap();
    assert!(m.title.is_none() && m.thumbnail.is_none() && m.formats.is_none());
}

#[test]
fn summary_from_document() {
    let doc = r#"{"title":"Clip","duration":60,"formats":[{"height":1080,"vcodec":"avc1"},{"height":1080,"vcodec":"vp9"}]}"#;
    let info = video_info_from_document(doc, "https://youtu.be/x").unwrap();
    assert_eq!(info.title, "Clip");
    assert_eq!(info.uploader, "Bilinmeyen");
    assert_eq!(info.thumbnail, "");
    assert_eq!(info.duration, 60);
    assert_eq!(info.webpage_url, "https://youtu.be/x");
    assert_eq!(info.formats.len(), 3);
    assert_eq!(info.formats[2].id, "bestvideo[height<=1080]+bestaudio/best[height<=1080]");
}

#[test]
fn document_that_is_not_json() {
    let e = video_info_from_document("not json", "u").err().unwrap();
    let detail = serde_json::from_str::<serde_json::Value>("not json").unwrap_err().to_string();
    assert_eq!(e, format!("JSON parse hatası: {detail}"));
    assert_eq!(read_metadata("not json").err().unwrap(), detail);
}
