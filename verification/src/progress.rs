//! Reading yt-dlp's output while it downloads: the progress events shown to
//! the user, and the lines of its error output that are reported.
use vstd::prelude::*;

use crate::text::{has_text, owned, text_contains};

verus! {

#[verifier::external_type_specification]
#[verifier::external_body]
pub struct ExRegex(regex::Regex);

#[verifier::external_type_specification]
#[verifier::external_body]
pub struct ExRegexError(regex::Error);

/// Whether `regex::Regex::new` accepts a pattern (its syntax is valid and
/// the compiled program fits the default size limit).
pub uninterp spec fn regex_accepts(pattern: Seq<char>) -> bool;

/// What `regex::Regex::captures` finds for a pattern in a text: `None`
/// when there is no match, else the text of each group of the leftmost-first
/// match (group 0 being the whole match), `None` for a group that did not
/// take part in it.
pub uninterp spec fn regex_captures(pattern: Seq<char>, haystack: Seq<char>) -> Option<Seq<Option<Seq<char>>>>;

/// A compiled regular expression together with the pattern it was compiled from.
pub struct Pattern {
    re: regex::Regex,
    source: String,
}

impl View for Pattern {
    type V = Seq<char>;

    closed spec fn view(&self) -> Seq<char> {
        self.source@
    }
}

/// The view of an optional text.
pub open spec fn group_view(g: Option<String>) -> Option<Seq<char>> {
    match g {
        Some(s) => Some(s@),
        None => None,
    }
}

/// The view of the groups of a match.
pub open spec fn captures_view(r: Option<Vec<Option<String>>>) -> Option<Seq<Option<Seq<char>>>> {
    match r {
        Some(v) => Some(v@.map_values(|g: Option<String>| group_view(g))),
        None => None,
    }
}

/// Compiles a pattern with `regex::Regex::new`. Trusted: the result is `Ok`
/// exactly when the crate accepts the pattern, and then it holds the pattern.
#[verifier::external_body]
fn compile(pattern: String) -> (res: Result<Pattern, regex::Error>)
    ensures
        res is Ok <==> regex_accepts(pattern@),
        res matches Ok(p) ==> p@ == pattern@,
{
    match regex::Regex::new(&pattern) {
        Ok(re) => Ok(Pattern { re, source: pattern }),
        Err(e) => Err(e),
    }
}

/// The groups of the first match of a pattern in a text, from
/// `regex::Regex::captures` and `Captures::iter`. Trusted: the result is
/// what the crate finds for the pattern in the text.
#[verifier::external_body]
fn captures(p: &Pattern, haystack: &str) -> (res: Option<Vec<Option<String>>>)
    ensures
        captures_view(res) == regex_captures(p@, haystack@),
{
    let caps = p.re.captures(haystack)?;
    let mut groups: Vec<Option<String>> = Vec::new();
    for m in caps.iter() {
        groups.push(match m {
            Some(m) => Some(m.as_str().to_string()),
            None => None,
        });
    }
    Some(groups)
}

/// The pattern of a progress line: percentage, total size, speed and ETA.
pub open spec fn progress_pattern() -> Seq<char> {
    "\\[download\\]\\s+(\\d+\\.?\\d*)%\\s+of\\s+(.+?)\\s+at\\s+(.+?)/s\\s+ETA\\s+(.+)"@
}

/// The pattern of a line saying that the file is already there.
pub open spec fn already_pattern() -> Seq<char> {
    "(?i)(has already been downloaded|already exists)"@
}

/// The state of a download as the front end shows it.
#[derive(Clone, Copy, PartialEq, Eq, Structural, Debug)]
pub enum DownloadStatus {
    Downloading,
    Processing,
    Done,
    AlreadyExists,
    Cancelled,
}

/// The name of a status in the events sent to the front end.
pub open spec fn status_name(s: DownloadStatus) -> Seq<char> {
    match s {
        DownloadStatus::Downloading => "downloading"@,
        DownloadStatus::Processing => "processing"@,
        DownloadStatus::Done => "done"@,
        DownloadStatus::AlreadyExists => "already_exists"@,
        DownloadStatus::Cancelled => "cancelled"@,
    }
}

impl DownloadStatus {
    /// The name of the status in the events sent to the front end.
    pub fn name(&self) -> (res: &'static str)
        ensures
            res@ == status_name(*self),
    {
        match self {
            DownloadStatus::Downloading => "downloading",
            DownloadStatus::Processing => "processing",
            DownloadStatus::Done => "done",
            DownloadStatus::AlreadyExists => "already_exists",
            DownloadStatus::Cancelled => "cancelled",
        }
    }
}

/// A progress event. The percentage is kept as the decimal text that
/// yt-dlp printed (or the fixed value of the event); the front end reads
/// it as a number, 0 when it is not one.
pub struct DownloadProgress {
    pub percent: String,
    pub speed: String,
    pub eta: String,
    pub total_size: String,
    pub status: DownloadStatus,
}

/// `e` is the event with these fields.
pub open spec fn event_is(
    e: DownloadProgress,
    percent: Seq<char>,
    speed: Seq<char>,
    eta: Seq<char>,
    total_size: Seq<char>,
    status: DownloadStatus,
) -> bool {
    &&& e.percent@ == percent
    &&& e.speed@ == speed
    &&& e.eta@ == eta
    &&& e.total_size@ == total_size
    &&& e.status == status
}

/// The groups of a progress match hold the four fields (the pattern's
/// groups are all mandatory, so every match has them).
pub open spec fn has_progress_groups(g: Seq<Option<Seq<char>>>) -> bool {
    &&& g.len() >= 5
    &&& g[1] is Some
    &&& g[2] is Some
    &&& g[3] is Some
    &&& g[4] is Some
}

/// A line announcing post-processing: merging, audio extraction or ffmpeg work.
pub open spec fn announces_processing(line: Seq<char>) -> bool {
    ||| has_text(line, "Merging"@)
    ||| has_text(line, "ExtractAudio"@)
    ||| has_text(line, "[ffmpeg]"@)
}

/// The event for an output line, given the progress match and whether the
/// already-downloaded pattern matches: a progress line gives its fields,
/// else an already-downloaded line gives a finished download, else a
/// post-processing line gives 99%, else there is no event.
pub open spec fn line_event_is(
    res: Option<DownloadProgress>,
    progress: Option<Seq<Option<Seq<char>>>>,
    already: bool,
    line: Seq<char>,
) -> bool {
    if progress is Some && has_progress_groups(progress->0) {
        let g = progress->0;
        res matches Some(e) && event_is(
            e,
            g[1]->0,
            g[3]->0,
            g[4]->0,
            g[2]->0,
            DownloadStatus::Downloading,
        )
    } else if already {
        res matches Some(e) && event_is(e, "100"@, "—"@, "00:00"@, "—"@, DownloadStatus::AlreadyExists)
    } else if announces_processing(line) {
        res matches Some(e) && event_is(e, "99"@, "—"@, "—"@, "—"@, DownloadStatus::Processing)
    } else {
        res is None
    }
}

fn make_event(percent: &str, speed: &str, eta: &str, total_size: &str, status: DownloadStatus) -> (res: DownloadProgress)
    ensures
        event_is(res, percent@, speed@, eta@, total_size@, status),
{
    DownloadProgress {
        percent: owned(percent),
        speed: owned(speed),
        eta: owned(eta),
        total_size: owned(total_size),
        status,
    }
}

fn group_of(groups: &Vec<Option<String>>, i: usize) -> (res: Option<String>)
    requires
        i < groups.len(),
    ensures
        group_view(res) == group_view(groups@[i as int]),
{
    match &groups[i] {
        Some(s) => Some(owned(s.as_str())),
        None => None,
    }
}

fn progress_event(groups: &Vec<Option<String>>) -> (res: Option<DownloadProgress>)
    ensures
        match res {
            Some(e) => {
                let g = groups@.map_values(|x: Option<String>| group_view(x));
                &&& has_progress_groups(g)
                &&& event_is(e, g[1]->0, g[3]->0, g[4]->0, g[2]->0, DownloadStatus::Downloading)
            },
            None => !has_progress_groups(groups@.map_values(|x: Option<String>| group_view(x))),
        },
{
    let ghost g = groups@.map_values(|x: Option<String>| group_view(x));
    if groups.len() < 5 {
        return None;
    }
    let percent = group_of(groups, 1);
    let total_size = group_of(groups, 2);
    let speed = group_of(groups, 3);
    let eta = group_of(groups, 4);
    assert(g[1] == group_view(groups@[1]));
    assert(g[2] == group_view(groups@[2]));
    assert(g[3] == group_view(groups@[3]));
    assert(g[4] == group_view(groups@[4]));
    match (percent, total_size, speed, eta) {
        (Some(p), Some(t), Some(s), Some(e)) => Some(
            DownloadProgress { percent: p, speed: s, eta: e, total_size: t, status: DownloadStatus::Downloading },
        ),
        _ => None,
    }
}

/// Whether a line announces post-processing.
pub fn is_processing_line(line: &str) -> (res: bool)
    ensures
        res == announces_processing(line@),
{
    text_contains(line, "Merging") || text_contains(line, "ExtractAudio") || text_contains(line, "[ffmpeg]")
}

/// The event for an output line, given what the two patterns found in it.
pub fn line_event(progress: &Option<Vec<Option<String>>>, already: bool, line: &str) -> (res: Option<DownloadProgress>)
    ensures
        line_event_is(res, captures_view(*progress), already, line@),
{
    if let Some(groups) = progress {
        let e = progress_event(groups);
        if e.is_some() {
            return e;
        }
    }
    if already {
        Some(make_event("100", "—", "00:00", "—", DownloadStatus::AlreadyExists))
    } else if is_processing_line(line) {
        Some(make_event("99", "—", "—", "—", DownloadStatus::Processing))
    } else {
        None
    }
}

/// The two patterns that sort yt-dlp's output lines.
pub struct LineClassifier {
    progress: Pattern,
    already: Pattern,
}

impl LineClassifier {
    #[verifier::type_invariant]
    spec fn holds_patterns(self) -> bool {
        &&& self.progress@ == progress_pattern()
        &&& self.already@ == already_pattern()
    }

    /// Compiles the two patterns; the error is the one of the first
    /// pattern that the regex crate refuses.
    pub fn new() -> (res: Result<LineClassifier, regex::Error>)
        ensures
            res is Ok <==> (regex_accepts(progress_pattern()) && regex_accepts(already_pattern())),
    {
        let progress = compile(owned("\\[download\\]\\s+(\\d+\\.?\\d*)%\\s+of\\s+(.+?)\\s+at\\s+(.+?)/s\\s+ETA\\s+(.+)"))?;
        let already = compile(owned("(?i)(has already been downloaded|already exists)"))?;
        Ok(LineClassifier { progress, already })
    }

    /// The event for a line of yt-dlp's output.
    pub fn classify(&self, line: &str) -> (res: Option<DownloadProgress>)
        ensures
            line_event_is(
                res,
                regex_captures(progress_pattern(), line@),
                regex_captures(already_pattern(), line@) is Some,
                line@,
            ),
    {
        proof {
            use_type_invariant(self);
        }
        let progress = captures(&self.progress, line);
        if let Some(groups) = &progress {
            let e = progress_event(groups);
            if e.is_some() {
                return e;
            }
        }
        let already = captures(&self.already, line).is_some();
        line_event(&None, already, line)
    }
}

/// The events an output line gives, field by field: a line with a usable
/// progress match reports its percentage (group 1), total size (group 2),
/// speed (group 3) and ETA (group 4) as a running download, whatever else
/// it says; otherwise an already-downloaded line reports a finished file
/// at 100% whatever else it says; otherwise a post-processing line reports
/// 99%; any other line gives no event.
pub proof fn lemma_line_event_fields(
    res: Option<DownloadProgress>,
    progress: Option<Seq<Option<Seq<char>>>>,
    already: bool,
    line: Seq<char>,
)
    requires
        line_event_is(res, progress, already, line),
    ensures
        progress is Some && has_progress_groups(progress->0) ==> {
            let g = progress->0;
            &&& res is Some
            &&& res->0.percent@ == g[1]->0
            &&& res->0.total_size@ == g[2]->0
            &&& res->0.speed@ == g[3]->0
            &&& res->0.eta@ == g[4]->0
            &&& res->0.status == DownloadStatus::Downloading
        },
        !(progress is Some && has_progress_groups(progress->0)) && already ==> {
            &&& res is Some
            &&& res->0.percent@ == "100"@
            &&& res->0.eta@ == "00:00"@
            &&& res->0.speed@ == "—"@
            &&& res->0.total_size@ == "—"@
            &&& res->0.status == DownloadStatus::AlreadyExists
        },
        !(progress is Some && has_progress_groups(progress->0)) && !already && (has_text(line, "Merging"@) || has_text(
            line,
            "ExtractAudio"@,
        ) || has_text(line, "[ffmpeg]"@)) ==> {
            &&& res is Some
            &&& res->0.percent@ == "99"@
            &&& res->0.eta@ == "—"@
            &&& res->0.speed@ == "—"@
            &&& res->0.total_size@ == "—"@
            &&& res->0.status == DownloadStatus::Processing
        },
        res is None <==> !(progress is Some && has_progress_groups(progress->0)) && !already && !has_text(
            line,
            "Merging"@,
        ) && !has_text(line, "ExtractAudio"@) && !has_text(line, "[ffmpeg]"@),
{
}

/// The status names sent to the front end: each status has its own name.
pub proof fn lemma_status_names(a: DownloadStatus, b: DownloadStatus)
    ensures
        status_name(DownloadStatus::Downloading) == "downloading"@,
        status_name(DownloadStatus::Processing) == "processing"@,
        status_name(DownloadStatus::Done) == "done"@,
        status_name(DownloadStatus::AlreadyExists) == "already_exists"@,
        status_name(DownloadStatus::Cancelled) == "cancelled"@,
        a != b ==> status_name(a) != status_name(b),
{
    reveal_strlit("downloading");
    reveal_strlit("processing");
    reveal_strlit("done");
    reveal_strlit("already_exists");
    reveal_strlit("cancelled");
    if a != b {
        let x = status_name(a);
        let y = status_name(b);
        if x.len() == y.len() {
            assert(x[0] != y[0]);
        }
    }
}

/// Whether a line of yt-dlp's error output is passed on to the user: it
/// mentions `ERROR`, `Error` or `WARNING`.
pub fn is_reported_error(line: &str) -> (res: bool)
    ensures
        res == (has_text(line@, "ERROR"@) || has_text(line@, "Error"@) || has_text(line@, "WARNING"@)),
{
    text_contains(line, "ERROR") || text_contains(line, "Error") || text_contains(line, "WARNING")
}

/// The event sent when yt-dlp's error output closes: the download is over.
pub fn finished_event() -> (res: DownloadProgress)
    ensures
        event_is(res, "100"@, "—"@, "00:00"@, "—"@, DownloadStatus::Done),
{
    make_event("100", "—", "00:00", "—", DownloadStatus::Done)
}

/// The event sent when the user stops the download.
pub fn cancelled_event() -> (res: DownloadProgress)
    ensures
        event_is(res, "0"@, "—"@, "—"@, "—"@, DownloadStatus::Cancelled),
{
    make_event("0", "—", "—", "—", DownloadStatus::Cancelled)
}

} // verus!
