//! The video summary shown before a download: metadata with its defaults,
//! and the menu of download formats built from the formats yt-dlp reports.
use vstd::prelude::*;

use crate::invocation::{failure_message, failure_prefix, Failure};
use crate::text::{decimal, decimal_text, joined, owned, same_text};

verus! {

/// What is read of one entry of the `formats` list that yt-dlp reports:
/// its `height` when it is an integer, and its `vcodec` when it is a string.
pub struct MediaFormat {
    pub height: Option<i64>,
    pub vcodec: Option<String>,
}

/// What is read of the JSON document that `yt-dlp --dump-json` prints:
/// each field when it is present with the expected JSON type, and the
/// `formats` array when there is one.
pub struct VideoMetadata {
    pub title: Option<String>,
    pub thumbnail: Option<String>,
    pub duration: Option<i64>,
    pub uploader: Option<String>,
    pub webpage_url: Option<String>,
    pub formats: Option<Vec<MediaFormat>>,
}

/// One entry of the download menu: the yt-dlp format selector and its labels.
pub struct FormatOption {
    pub id: String,
    pub description: String,
    pub note: String,
    pub is_audio_only: bool,
}

/// The summary of a video that the front end shows.
pub struct VideoInfo {
    pub title: String,
    pub thumbnail: String,
    pub duration: i64,
    pub uploader: String,
    pub webpage_url: String,
    pub formats: Vec<FormatOption>,
}

/// A text field, or `default` when it is absent.
pub open spec fn text_or(v: Option<String>, default: Seq<char>) -> Seq<char> {
    match v {
        Some(s) => s@,
        None => default,
    }
}

/// The height of a format, 0 when it is not reported.
pub open spec fn format_height(f: MediaFormat) -> i64 {
    match f.height {
        Some(h) => h,
        None => 0,
    }
}

/// The format carries a video stream: its codec is reported and is not `none`.
pub open spec fn carries_video(f: MediaFormat) -> bool {
    match f.vcodec {
        Some(c) => c@ != "none"@,
        None => false,
    }
}

/// A format earns a menu entry of its own: a video stream of at least 360 lines.
pub open spec fn qualifies(f: MediaFormat) -> bool {
    format_height(f) >= 360 && carries_video(f)
}

/// The heights that get a menu entry, in the order in which they first
/// occur among the qualifying formats, each once.
pub open spec fn chosen_heights(fs: Seq<MediaFormat>) -> Seq<i64>
    decreases fs.len(),
{
    if fs.len() == 0 {
        seq![]
    } else {
        let prev = chosen_heights(fs.drop_last());
        let f = fs.last();
        if qualifies(f) && !prev.contains(format_height(f)) {
            prev.push(format_height(f))
        } else {
            prev
        }
    }
}

/// The formats of the metadata, none when the list is absent.
pub open spec fn listed_formats(m: VideoMetadata) -> Seq<MediaFormat> {
    match m.formats {
        Some(v) => v@,
        None => seq![],
    }
}

/// The name of a resolution class.
pub open spec fn resolution_label(h: int) -> Seq<char> {
    if h >= 2160 {
        "4K (2160p)"@
    } else if h >= 1440 {
        "2K (1440p)"@
    } else if h >= 1080 {
        "1080p (Full HD)"@
    } else if h >= 720 {
        "720p (HD)"@
    } else {
        "SD"@
    }
}

/// The yt-dlp selector for the best video of at most `h` lines merged with
/// the best audio, falling back to the best single file of at most `h` lines.
pub open spec fn height_selector(h: int) -> Seq<char> {
    "bestvideo[height<="@ + decimal(h) + "]+bestaudio/best[height<="@ + decimal(h) + "]"@
}

/// `o` is the menu entry for height `h`.
pub open spec fn is_height_option(o: FormatOption, h: int) -> bool {
    &&& o.id@ == height_selector(h)
    &&& o.description@ == resolution_label(h) + " — Video + Ses"@
    &&& o.note@ == "Maks "@ + decimal(h) + "p"@
    &&& !o.is_audio_only
}

/// `o` is the entry for the best video merged with the best audio.
pub open spec fn is_best_option(o: FormatOption) -> bool {
    &&& o.id@ == "bestvideo+bestaudio/best"@
    &&& o.description@ == "En İyi Kalite (Video + Ses)"@
    &&& o.note@ == "Otomatik"@
    &&& !o.is_audio_only
}

/// `o` is the entry for the best audio alone.
pub open spec fn is_audio_option(o: FormatOption) -> bool {
    &&& o.id@ == "bestaudio/best"@
    &&& o.description@ == "Sadece Ses (MP3)"@
    &&& o.note@ == "En iyi ses kalitesi"@
    &&& o.is_audio_only
}

/// `menu` is the menu for the formats `fs`: the two fixed entries, then one
/// entry per chosen height.
pub open spec fn is_menu_for(menu: Seq<FormatOption>, fs: Seq<MediaFormat>) -> bool {
    let hs = chosen_heights(fs);
    &&& menu.len() == 2 + hs.len()
    &&& is_best_option(menu[0])
    &&& is_audio_option(menu[1])
    &&& forall|k: int| 0 <= k < hs.len() ==> #[trigger] is_height_option(menu[k + 2], hs[k] as int)
}

/// The summary that the metadata gives for a video requested by `url`.
pub open spec fn is_info_for(info: VideoInfo, m: VideoMetadata, url: Seq<char>) -> bool {
    &&& info.title@ == text_or(m.title, "Bilinmeyen"@)
    &&& info.thumbnail@ == text_or(m.thumbnail, ""@)
    &&& info.duration == (match m.duration {
        Some(d) => d,
        None => 0,
    })
    &&& info.uploader@ == text_or(m.uploader, "Bilinmeyen"@)
    &&& info.webpage_url@ == text_or(m.webpage_url, url)
    &&& is_menu_for(info.formats@, listed_formats(m))
}

/// Each chosen height occurs once.
pub proof fn lemma_chosen_heights_distinct(fs: Seq<MediaFormat>)
    ensures
        forall|i: int, j: int|
            0 <= i < j < chosen_heights(fs).len() ==> chosen_heights(fs)[i] != chosen_heights(fs)[j],
    decreases fs.len(),
{
    if fs.len() > 0 {
        lemma_chosen_heights_distinct(fs.drop_last());
        let prev = chosen_heights(fs.drop_last());
        let f = fs.last();
        if qualifies(f) && !prev.contains(format_height(f)) {
            assert forall|i: int, j: int|
                0 <= i < j < chosen_heights(fs).len() implies chosen_heights(fs)[i] != chosen_heights(fs)[j] by {
                if j == prev.len() {
                    assert(chosen_heights(fs)[i] == prev[i]);
                }
            }
        }
    }
}

/// Each chosen height is the height of a qualifying format.
pub proof fn lemma_chosen_heights_qualify(fs: Seq<MediaFormat>)
    ensures
        forall|i: int| #![trigger chosen_heights(fs)[i]] 0 <= i < chosen_heights(fs).len() ==> exists|j: int|
            0 <= j < fs.len() && qualifies(#[trigger] fs[j]) && format_height(fs[j]) == chosen_heights(fs)[i],
        forall|i: int| 0 <= i < chosen_heights(fs).len() ==> chosen_heights(fs)[i] >= 360,
        chosen_heights(fs).len() <= fs.len(),
    decreases fs.len(),
{
    if fs.len() > 0 {
        let init = fs.drop_last();
        lemma_chosen_heights_qualify(init);
        let prev = chosen_heights(init);
        assert forall|i: int| #![trigger chosen_heights(fs)[i]] 0 <= i < chosen_heights(fs).len() implies exists|j: int|
            0 <= j < fs.len() && qualifies(#[trigger] fs[j]) && format_height(fs[j]) == chosen_heights(fs)[i] by {
            if i < prev.len() {
                assert(chosen_heights(fs)[i] == prev[i]);
                let j = choose|j: int| 0 <= j < init.len() && qualifies(#[trigger] init[j]) && format_height(init[j]) == prev[i];
                assert(fs[j] == init[j]);
            } else {
                assert(fs[fs.len() - 1] == fs.last());
            }
        }
        assert forall|i: int| 0 <= i < chosen_heights(fs).len() implies chosen_heights(fs)[i] >= 360 by {
            if i < prev.len() {
                assert(chosen_heights(fs)[i] == prev[i]);
            }
        }
    }
}

/// The height of every qualifying format is chosen.
pub proof fn lemma_chosen_heights_complete(fs: Seq<MediaFormat>)
    ensures
        forall|j: int| 0 <= j < fs.len() && qualifies(#[trigger] fs[j]) ==> chosen_heights(fs).contains(
            format_height(fs[j]),
        ),
    decreases fs.len(),
{
    if fs.len() > 0 {
        let init = fs.drop_last();
        lemma_chosen_heights_complete(init);
        let prev = chosen_heights(init);
        assert forall|j: int| 0 <= j < fs.len() && qualifies(#[trigger] fs[j]) implies chosen_heights(fs).contains(
            format_height(fs[j]),
        ) by {
            if j < init.len() {
                assert(fs[j] == init[j]);
                assert(prev.contains(format_height(init[j])));
                let k = choose|k: int| 0 <= k < prev.len() && prev[k] == format_height(init[j]);
                assert(chosen_heights(fs)[k] == prev[k]);
            } else {
                assert(fs[j] == fs.last());
                if prev.contains(format_height(fs[j])) {
                    let k = choose|k: int| 0 <= k < prev.len() && prev[k] == format_height(fs[j]);
                    assert(chosen_heights(fs)[k] == prev[k]);
                } else {
                    assert(chosen_heights(fs)[prev.len() as int] == format_height(fs[j]));
                }
            }
        }
    }
}

/// Growing the format list only appends menu heights: the heights chosen for
/// a prefix of the formats are a prefix of those chosen for all of them, so
/// heights appear in the order in which they first qualify.
pub proof fn lemma_chosen_heights_prefix(fs: Seq<MediaFormat>, n: int)
    requires
        0 <= n <= fs.len(),
    ensures
        chosen_heights(fs.take(n)).len() <= chosen_heights(fs).len(),
        chosen_heights(fs.take(n)) == chosen_heights(fs).take(chosen_heights(fs.take(n)).len() as int),
    decreases fs.len() - n,
{
    if n == fs.len() {
        assert(fs.take(n) =~= fs);
        assert(chosen_heights(fs).take(chosen_heights(fs).len() as int) =~= chosen_heights(fs));
    } else {
        lemma_chosen_heights_prefix(fs, n + 1);
        let small = fs.take(n);
        let big = fs.take(n + 1);
        assert(big.drop_last() =~= small);
        let cs = chosen_heights(small);
        let cb = chosen_heights(big);
        let all = chosen_heights(fs);
        assert(cb.len() >= cs.len());
        assert(cs =~= cb.take(cs.len() as int));
        assert(cs =~= all.take(cs.len() as int));
    }
}

/// The menu's fixed head and the description of a height entry's class.
pub open spec fn class_label(h: int) -> Seq<char> {
    if h >= 2160 {
        "4K (2160p)"@
    } else if h >= 1440 {
        "2K (1440p)"@
    } else if h >= 1080 {
        "1080p (Full HD)"@
    } else if h >= 720 {
        "720p (HD)"@
    } else {
        "SD"@
    }
}

/// `o` is, written out, the menu entry for height `h`: the best video of at
/// most `h` lines merged with the best audio, its resolution class and its
/// note, not audio only.
pub open spec fn entry_written_for(o: FormatOption, h: i64) -> bool {
    &&& o.id@ == "bestvideo[height<="@ + decimal(h as int) + "]+bestaudio/best[height<="@ + decimal(h as int) + "]"@
    &&& o.description@ == class_label(h as int) + " — Video + Ses"@
    &&& o.note@ == "Maks "@ + decimal(h as int) + "p"@
    &&& !o.is_audio_only
}

/// A reported format with a video stream (its codec given and not `none`)
/// of at least 360 lines, however tall, has an entry of its own in the
/// menu, after the best merged entry and the audio entry.
pub proof fn lemma_every_video_height_has_entry(menu: Seq<FormatOption>, fs: Seq<MediaFormat>, j: int)
    requires
        is_menu_for(menu, fs),
        0 <= j < fs.len(),
        fs[j].height is Some,
        fs[j].height->0 >= 360,
        fs[j].vcodec is Some,
        fs[j].vcodec->0@ != "none"@,
    ensures
        menu[0].id@ == "bestvideo+bestaudio/best"@ && !menu[0].is_audio_only,
        menu[1].id@ == "bestaudio/best"@ && menu[1].is_audio_only,
        exists|k: int| 2 <= k < menu.len() && #[trigger] entry_written_for(menu[k], fs[j].height->0),
{
    assert(qualifies(fs[j]));
    lemma_chosen_heights_complete(fs);
    let hs = chosen_heights(fs);
    assert(hs.contains(format_height(fs[j])));
    let k0 = choose|k0: int| 0 <= k0 < hs.len() && hs[k0] == format_height(fs[j]);
    assert(is_height_option(menu[k0 + 2], hs[k0] as int));
    assert(entry_written_for(menu[k0 + 2], fs[j].height->0));
}

/// Every entry after the two fixed ones is the entry of a reported format
/// with a video stream of at least 360 lines, and no two of them carry the
/// same note, so no height has two entries.
pub proof fn lemma_every_entry_is_a_video_height(menu: Seq<FormatOption>, fs: Seq<MediaFormat>)
    requires
        is_menu_for(menu, fs),
    ensures
        forall|k: int| #![trigger menu[k]] 2 <= k < menu.len() ==> exists|j: int| {
            &&& 0 <= j < fs.len()
            &&& #[trigger] fs[j].height is Some
            &&& fs[j].height->0 >= 360
            &&& fs[j].vcodec is Some
            &&& fs[j].vcodec->0@ != "none"@
            &&& entry_written_for(menu[k], fs[j].height->0)
        },
        forall|k1: int, k2: int| 2 <= k1 < k2 < menu.len() ==> #[trigger] menu[k1].note@ != #[trigger] menu[k2].note@,
{
    let hs = chosen_heights(fs);
    lemma_chosen_heights_qualify(fs);
    lemma_chosen_heights_distinct(fs);
    assert forall|k: int| #![trigger menu[k]] 2 <= k < menu.len() implies exists|j: int| {
        &&& 0 <= j < fs.len()
        &&& #[trigger] fs[j].height is Some
        &&& fs[j].height->0 >= 360
        &&& fs[j].vcodec is Some
        &&& fs[j].vcodec->0@ != "none"@
        &&& entry_written_for(menu[k], fs[j].height->0)
    } by {
        assert(is_height_option(menu[(k - 2) + 2], hs[k - 2] as int));
        assert(hs[k - 2] == chosen_heights(fs)[k - 2]);
        let j = choose|j: int| 0 <= j < fs.len() && qualifies(#[trigger] fs[j]) && format_height(fs[j]) == chosen_heights(fs)[k - 2];
        assert(fs[j].height is Some);
        assert(entry_written_for(menu[k], fs[j].height->0));
    }
    assert forall|k1: int, k2: int| 2 <= k1 < k2 < menu.len() implies #[trigger] menu[k1].note@ != #[trigger] menu[k2].note@ by {
        let h1 = hs[k1 - 2];
        let h2 = hs[k2 - 2];
        assert(is_height_option(menu[(k1 - 2) + 2], h1 as int));
        assert(is_height_option(menu[(k2 - 2) + 2], h2 as int));
        assert(chosen_heights(fs)[k1 - 2] != chosen_heights(fs)[k2 - 2]);
        if menu[k1].note@ == menu[k2].note@ {
            reveal_strlit("Maks ");
            reveal_strlit("p");
            let n1 = menu[k1].note@;
            let n2 = menu[k2].note@;
            assert(n1.subrange(5, n1.len() - 1) =~= decimal(h1 as int));
            assert(n2.subrange(5, n2.len() - 1) =~= decimal(h2 as int));
            crate::text::lemma_decimal_injective(h1 as int, h2 as int);
        }
    }
}

/// The fields of a summary: each reported field as it was read, and for an
/// absent one `Bilinmeyen` as title and uploader, an empty thumbnail, a
/// duration of 0 and the requested address as page; without a format list
/// the menu holds just its two fixed entries.
pub proof fn lemma_summary_fields(info: VideoInfo, m: VideoMetadata, url: Seq<char>)
    requires
        is_info_for(info, m, url),
    ensures
        m.title is Some ==> info.title@ == m.title->0@,
        m.title is None ==> info.title@ == "Bilinmeyen"@,
        m.thumbnail is Some ==> info.thumbnail@ == m.thumbnail->0@,
        m.thumbnail is None ==> info.thumbnail@ == Seq::<char>::empty(),
        m.duration is Some ==> info.duration == m.duration->0,
        m.duration is None ==> info.duration == 0,
        m.uploader is Some ==> info.uploader@ == m.uploader->0@,
        m.uploader is None ==> info.uploader@ == "Bilinmeyen"@,
        m.webpage_url is Some ==> info.webpage_url@ == m.webpage_url->0@,
        m.webpage_url is None ==> info.webpage_url@ == url,
        m.formats is None ==> info.formats@.len() == 2,
        info.formats@.len() >= 2,
{
    reveal_strlit("");
}

fn fixed_option(id: &str, description: &str, note: &str, is_audio_only: bool) -> (res: FormatOption)
    ensures
        res.id@ == id@,
        res.description@ == description@,
        res.note@ == note@,
        res.is_audio_only == is_audio_only,
{
    FormatOption { id: owned(id), description: owned(description), note: owned(note), is_audio_only }
}

/// The name of the resolution class of a height.
pub fn resolution_label_text(h: i64) -> (res: &'static str)
    ensures
        res@ == resolution_label(h as int),
{
    if h >= 2160 {
        "4K (2160p)"
    } else if h >= 1440 {
        "2K (1440p)"
    } else if h >= 1080 {
        "1080p (Full HD)"
    } else if h >= 720 {
        "720p (HD)"
    } else {
        "SD"
    }
}

/// The menu entry for one height.
pub fn height_option(h: i64) -> (res: FormatOption)
    ensures
        is_height_option(res, h as int),
{
    let n = decimal_text(h);
    let id = joined(joined(joined(joined("bestvideo[height<=", n.as_str()).as_str(), "]+bestaudio/best[height<=").as_str(),
        n.as_str()).as_str(), "]");
    let description = joined(resolution_label_text(h), " — Video + Ses");
    let note = joined(joined("Maks ", n.as_str()).as_str(), "p");
    FormatOption { id, description, note, is_audio_only: false }
}

fn contains_height(seen: &Vec<i64>, h: i64) -> (res: bool)
    ensures
        res == seen@.contains(h),
{
    let mut i: usize = 0;
    while i < seen.len()
        invariant
            0 <= i <= seen.len(),
            forall|k: int| 0 <= k < i ==> seen@[k] != h,
        decreases seen.len() - i,
    {
        if seen[i] == h {
            return true;
        }
        i = i + 1;
    }
    false
}

fn qualifies_exec(f: &MediaFormat) -> (res: bool)
    ensures
        res == qualifies(*f),
{
    let h = match f.height {
        Some(h) => h,
        None => 0,
    };
    if h < 360 {
        return false;
    }
    match &f.vcodec {
        Some(c) => {
            let none = same_text(c.as_str(), "none");
            !none
        },
        None => false,
    }
}

/// The download menu for a list of formats: the best merged video and
/// audio, the best audio alone, then one entry per height of at least 360
/// lines with a video stream, in order of first occurrence and each height once.
pub fn format_menu(formats: &Vec<MediaFormat>) -> (res: Vec<FormatOption>)
    ensures
        is_menu_for(res@, formats@),
{
    let mut menu: Vec<FormatOption> = Vec::new();
    menu.push(fixed_option("bestvideo+bestaudio/best", "En İyi Kalite (Video + Ses)", "Otomatik", false));
    menu.push(fixed_option("bestaudio/best", "Sadece Ses (MP3)", "En iyi ses kalitesi", true));
    let mut seen: Vec<i64> = Vec::new();
    let mut i: usize = 0;
    proof {
        assert(formats@.take(0) =~= Seq::<MediaFormat>::empty());
    }
    while i < formats.len()
        invariant
            0 <= i <= formats.len(),
            seen@ == chosen_heights(formats@.take(i as int)),
            menu@.len() == 2 + seen@.len(),
            is_best_option(menu@[0]),
            is_audio_option(menu@[1]),
            forall|k: int| 0 <= k < seen@.len() ==> #[trigger] is_height_option(menu@[k + 2], seen@[k] as int),
        decreases formats.len() - i,
    {
        let f = &formats[i];
        proof {
            assert(formats@.take(i + 1).drop_last() =~= formats@.take(i as int));
            assert(formats@.take(i + 1).last() == formats@[i as int]);
        }
        if qualifies_exec(f) {
            let h = match f.height {
                Some(h) => h,
                None => 0,
            };
            if !contains_height(&seen, h) {
                let ghost old_menu = menu@;
                seen.push(h);
                menu.push(height_option(h));
                assert forall|k: int| 0 <= k < seen@.len() implies #[trigger] is_height_option(menu@[k + 2], seen@[k] as int) by {
                    if k + 1 < seen@.len() {
                        assert(menu@[k + 2] == old_menu[k + 2]);
                    }
                }
            }
        }
        i = i + 1;
    }
    proof {
        assert(formats@.take(formats.len() as int) =~= formats@);
    }
    menu
}

fn text_or_default(v: &Option<String>, default: &str) -> (res: String)
    ensures
        res@ == text_or(*v, default@),
{
    match v {
        Some(s) => owned(s.as_str()),
        None => owned(default),
    }
}

/// The video summary: the reported title, thumbnail, duration, uploader and
/// page address with their defaults (`Bilinmeyen`, empty, 0, `Bilinmeyen`
/// and the requested address), and the download menu.
pub fn build_video_info(meta: &VideoMetadata, url: &str) -> (res: VideoInfo)
    ensures
        is_info_for(res, *meta, url@),
{
    let formats = match &meta.formats {
        Some(v) => format_menu(v),
        None => {
            let empty: Vec<MediaFormat> = Vec::new();
            let m = format_menu(&empty);
            assert(empty@ =~= listed_formats(*meta));
            m
        },
    };
    VideoInfo {
        title: text_or_default(&meta.title, "Bilinmeyen"),
        thumbnail: text_or_default(&meta.thumbnail, ""),
        duration: match meta.duration {
            Some(d) => d,
            None => 0,
        },
        uploader: text_or_default(&meta.uploader, "Bilinmeyen"),
        webpage_url: text_or_default(&meta.webpage_url, url),
        formats,
    }
}

/// The view of an optional text.
pub open spec fn opt_text(v: Option<String>) -> Option<Seq<char>> {
    match v {
        Some(s) => Some(s@),
        None => None,
    }
}

/// What is read of one format: its height and its video codec.
pub open spec fn format_view(f: MediaFormat) -> (Option<i64>, Option<Seq<char>>) {
    (f.height, opt_text(f.vcodec))
}

/// What is read of a metadata document: title, thumbnail, duration,
/// uploader, page address and formats.
pub open spec fn metadata_view(m: VideoMetadata) -> (
    Option<Seq<char>>,
    Option<Seq<char>>,
    Option<i64>,
    Option<Seq<char>>,
    Option<Seq<char>>,
    Option<Seq<(Option<i64>, Option<Seq<char>>)>>,
) {
    (
        opt_text(m.title),
        opt_text(m.thumbnail),
        m.duration,
        opt_text(m.uploader),
        opt_text(m.webpage_url),
        match m.formats {
            Some(v) => Some(v@.map_values(|f: MediaFormat| format_view(f))),
            None => None,
        },
    )
}

/// What `serde_json::from_str` into a `serde_json::Value` followed by the
/// lookups of `title`, `thumbnail`, `duration`, `uploader`, `webpage_url`
/// and `formats` (with `height` and `vcodec` of each entry) gives for a
/// document: `None` when it is not JSON, else each field when it has the
/// expected JSON type (string, 64-bit integer, array).
pub uninterp spec fn json_metadata(document: Seq<char>) -> Option<
    (
        Option<Seq<char>>,
        Option<Seq<char>>,
        Option<i64>,
        Option<Seq<char>>,
        Option<Seq<char>>,
        Option<Seq<(Option<i64>, Option<Seq<char>>)>>,
    ),
>;

/// The text of the error that `serde_json::from_str` gives for a document
/// that is not JSON.
pub uninterp spec fn json_error_text(document: Seq<char>) -> Seq<char>;

/// Reads yt-dlp's JSON document with `serde_json::from_str` into a
/// `serde_json::Value` and looks up the fields the summary uses
/// (`Value::as_str`, `as_i64`, `as_array`; indexing a missing key or a
/// non-object gives no value). Trusted: the result is what the crate gives
/// for the document, and the error is its message.
#[verifier::external_body]
pub fn read_metadata(document: &str) -> (res: Result<VideoMetadata, String>)
    ensures
        res is Ok <==> json_metadata(document@) is Some,
        res matches Ok(m) ==> metadata_view(m) == json_metadata(document@)->0,
        res matches Err(d) ==> d@ == json_error_text(document@),
{
    let raw: serde_json::Value = serde_json::from_str(document).map_err(|e| e.to_string())?;
    let text = |key: &str| raw[key].as_str().map(String::from);
    let formats = raw["formats"].as_array().map(|entries| {
        entries.iter().map(|f| MediaFormat { height: f["height"].as_i64(), vcodec: f["vcodec"].as_str().map(String::from) }).collect()
    });
    Ok(VideoMetadata {
        title: text("title"),
        thumbnail: text("thumbnail"),
        duration: raw["duration"].as_i64(),
        uploader: text("uploader"),
        webpage_url: text("webpage_url"),
        formats,
    })
}

proof fn lemma_chosen_heights_by_view(a: Seq<MediaFormat>, b: Seq<MediaFormat>)
    requires
        a.map_values(|f: MediaFormat| format_view(f)) == b.map_values(|f: MediaFormat| format_view(f)),
    ensures
        chosen_heights(a) == chosen_heights(b),
    decreases a.len(),
{
    let va = a.map_values(|f: MediaFormat| format_view(f));
    let vb = b.map_values(|f: MediaFormat| format_view(f));
    assert(a.len() == va.len() && b.len() == vb.len());
    if a.len() > 0 {
        let n = a.len() - 1;
        assert(va[n] == vb[n]);
        assert(format_view(a[n]) == format_view(b[n]));
        assert(a.drop_last().map_values(|f: MediaFormat| format_view(f)) =~= va.drop_last());
        assert(b.drop_last().map_values(|f: MediaFormat| format_view(f)) =~= vb.drop_last());
        lemma_chosen_heights_by_view(a.drop_last(), b.drop_last());
        assert(a.last() == a[n]);
        assert(b.last() == b[n]);
        assert(qualifies(a.last()) == qualifies(b.last()));
    }
}

/// The summary depends only on what is read of the document: two metadata
/// values that read alike give the same summaries.
pub proof fn lemma_info_depends_on_reading(info: VideoInfo, m1: VideoMetadata, m2: VideoMetadata, url: Seq<char>)
    requires
        metadata_view(m1) == metadata_view(m2),
    ensures
        is_info_for(info, m1, url) == is_info_for(info, m2, url),
{
    assert(opt_text(m1.title) == opt_text(m2.title));
    assert(opt_text(m1.thumbnail) == opt_text(m2.thumbnail));
    assert(opt_text(m1.uploader) == opt_text(m2.uploader));
    assert(opt_text(m1.webpage_url) == opt_text(m2.webpage_url));
    assert(text_or(m1.title, "Bilinmeyen"@) == text_or(m2.title, "Bilinmeyen"@));
    assert(text_or(m1.thumbnail, ""@) == text_or(m2.thumbnail, ""@));
    assert(text_or(m1.uploader, "Bilinmeyen"@) == text_or(m2.uploader, "Bilinmeyen"@));
    assert(text_or(m1.webpage_url, url) == text_or(m2.webpage_url, url));
    let empty = Seq::<MediaFormat>::empty();
    match (m1.formats, m2.formats) {
        (Some(v1), Some(v2)) => {
            lemma_chosen_heights_by_view(v1@, v2@);
        },
        _ => {},
    }
    assert(chosen_heights(listed_formats(m1)) == chosen_heights(listed_formats(m2)));
}

/// The summary of a video from yt-dlp's JSON document: an error carrying
/// serde_json's message when the document is not JSON, else the summary
/// of what is read of it.
pub fn video_info_from_document(document: &str, url: &str) -> (res: Result<VideoInfo, String>)
    ensures
        res is Ok <==> json_metadata(document@) is Some,
        res matches Err(m) ==> m@ == "JSON parse hatası: "@ + json_error_text(document@),
        res matches Ok(v) ==> exists|m: VideoMetadata|
            metadata_view(m) == json_metadata(document@)->0 && #[trigger] is_info_for(v, m, url@),
{
    match read_metadata(document) {
        Ok(meta) => {
            let info = build_video_info(&meta, url);
            let res: Result<VideoInfo, String> = Ok(info);
            assert(metadata_view(meta) == json_metadata(document@)->0 && is_info_for(res->Ok_0, meta, url@));
            res
        },
        Err(detail) => {
            let m = failure_message(Failure::JsonParse, detail.as_str());
            assert(failure_prefix(Failure::JsonParse) == "JSON parse hatası: "@);
            Err(m)
        },
    }
}

} // verus!
