//! The command lines given to yt-dlp and the reading of what it prints
//! when asked for a video's metadata.
use vstd::prelude::*;

use crate::text::{first_line, joined, last_line, lemma_lines_by_construction, owned, strip_cr, text_lines, views};

verus! {

/// The output file template under a download directory.
pub open spec fn output_template_spec(output_dir: Seq<char>) -> Seq<char> {
    output_dir + "/%(title)s.%(ext)s"@
}

/// The arguments that ask yt-dlp for a video's metadata as JSON.
pub open spec fn info_arguments_spec(url: Seq<char>) -> Seq<Seq<char>> {
    seq![url, "--dump-json"@, "--no-playlist"@]
}

/// The format choice: audio only converted to mp3, else the given selector,
/// else the best merged video and audio.
pub open spec fn format_arguments(format_id: Seq<char>, audio_only: bool) -> Seq<Seq<char>> {
    if audio_only {
        seq!["-x"@, "--audio-format"@, "mp3"@, "-f"@, "bestaudio/best"@]
    } else if format_id.len() > 0 {
        seq!["-f"@, format_id]
    } else {
        seq!["-f"@, "bestvideo+bestaudio/best"@]
    }
}

/// The arguments of a download: address, output template, line-wise
/// progress, single video, no modification time, the format choice, and
/// where ffmpeg is when it is known.
pub open spec fn download_arguments_spec(
    url: Seq<char>,
    format_id: Seq<char>,
    output_dir: Seq<char>,
    audio_only: bool,
    ffmpeg_location: Option<Seq<char>>,
) -> Seq<Seq<char>> {
    seq![url, "-o"@, output_template_spec(output_dir), "--newline"@, "--progress"@, "--no-playlist"@, "--no-mtime"@]
        + format_arguments(format_id, audio_only) + match ffmpeg_location {
        Some(p) => seq!["--ffmpeg-location"@, p],
        None => seq![],
    }
}

/// What a metadata query gives: on failure, an error built from the last
/// line of the error output; on success, the first line of the output,
/// which holds the video's JSON document.
pub open spec fn info_document_spec(success: bool, stdout: Seq<char>, stderr: Seq<char>) -> Result<Seq<char>, Seq<char>> {
    if !success {
        let errs = text_lines(stderr);
        Err("yt-dlp hatası: "@ + (if errs.len() > 0 { errs.last() } else { "Bilinmeyen hata"@ }))
    } else {
        let outs = text_lines(stdout);
        if outs.len() > 0 {
            Ok(outs[0])
        } else {
            Err("yt-dlp boş çıktı verdi"@)
        }
    }
}

/// The view of a textual result.
pub open spec fn result_view(r: Result<String, String>) -> Result<Seq<char>, Seq<char>> {
    match r {
        Ok(s) => Ok(s@),
        Err(e) => Err(e@),
    }
}

fn push_text(v: &mut Vec<String>, s: &str)
    ensures
        views(final(v)@) == views(old(v)@).push(s@),
{
    let ghost before = views(v@);
    v.push(owned(s));
    assert(views(v@) =~= before.push(s@));
}

/// The output file template under a download directory.
pub fn output_template(output_dir: &str) -> (res: String)
    ensures
        res@ == output_template_spec(output_dir@),
{
    joined(output_dir, "/%(title)s.%(ext)s")
}

/// The arguments that ask yt-dlp for a video's metadata as JSON.
pub fn info_arguments(url: &str) -> (res: Vec<String>)
    ensures
        views(res@) == info_arguments_spec(url@),
{
    let mut v: Vec<String> = Vec::new();
    assert(views(v@) =~= Seq::<Seq<char>>::empty());
    push_text(&mut v, url);
    push_text(&mut v, "--dump-json");
    push_text(&mut v, "--no-playlist");
    assert(views(v@) =~= info_arguments_spec(url@));
    v
}

/// The arguments of a download.
pub fn download_arguments(
    url: &str,
    format_id: &str,
    output_dir: &str,
    audio_only: bool,
    ffmpeg_location: Option<&str>,
) -> (res: Vec<String>)
    ensures
        views(res@) == download_arguments_spec(
            url@,
            format_id@,
            output_dir@,
            audio_only,
            match ffmpeg_location {
                Some(p) => Some(p@),
                None => None,
            },
        ),
{
    let mut v: Vec<String> = Vec::new();
    assert(views(v@) =~= Seq::<Seq<char>>::empty());
    push_text(&mut v, url);
    push_text(&mut v, "-o");
    let template = output_template(output_dir);
    push_text(&mut v, template.as_str());
    push_text(&mut v, "--newline");
    push_text(&mut v, "--progress");
    push_text(&mut v, "--no-playlist");
    push_text(&mut v, "--no-mtime");
    let ghost head = views(v@);
    if audio_only {
        push_text(&mut v, "-x");
        push_text(&mut v, "--audio-format");
        push_text(&mut v, "mp3");
        push_text(&mut v, "-f");
        push_text(&mut v, "bestaudio/best");
    } else if format_id.unicode_len() > 0 {
        push_text(&mut v, "-f");
        push_text(&mut v, format_id);
    } else {
        push_text(&mut v, "-f");
        push_text(&mut v, "bestvideo+bestaudio/best");
    }
    assert(views(v@) =~= head + format_arguments(format_id@, audio_only));
    let ghost mid = views(v@);
    match ffmpeg_location {
        Some(p) => {
            push_text(&mut v, "--ffmpeg-location");
            push_text(&mut v, p);
            assert(views(v@) =~= mid + seq!["--ffmpeg-location"@, p@]);
        },
        None => {
            assert(views(v@) =~= mid + Seq::<Seq<char>>::empty());
        },
    }
    v
}

/// The JSON document of a metadata query, or the error that the query
/// ends with: yt-dlp's last error line when it failed (`Bilinmeyen hata`
/// when it printed none), and an error when it succeeded but printed nothing.
pub fn info_document(success: bool, stdout: &str, stderr: &str) -> (res: Result<String, String>)
    ensures
        result_view(res) == info_document_spec(success, stdout@, stderr@),
{
    if !success {
        let detail = match last_line(stderr) {
            Some(l) => l,
            None => owned("Bilinmeyen hata"),
        };
        return Err(joined("yt-dlp hatası: ", detail.as_str()));
    }
    match first_line(stdout) {
        Some(l) => Ok(l),
        None => Err(owned("yt-dlp boş çıktı verdi")),
    }
}

/// The failures whose message carries a detail from outside: a process that
/// could not be run or started, a document that is not JSON.
pub enum Failure {
    Run,
    Start,
    JsonParse,
}

/// The prefix of the message of a failure.
pub open spec fn failure_prefix(kind: Failure) -> Seq<char> {
    match kind {
        Failure::Run => "yt-dlp çalıştırılamadı: "@,
        Failure::Start => "yt-dlp başlatılamadı: "@,
        Failure::JsonParse => "JSON parse hatası: "@,
    }
}

/// The message of a failure with its detail.
pub fn failure_message(kind: Failure, detail: &str) -> (res: String)
    ensures
        res@ == failure_prefix(kind) + detail@,
{
    let prefix = match kind {
        Failure::Run => "yt-dlp çalıştırılamadı: ",
        Failure::Start => "yt-dlp başlatılamadı: ",
        Failure::JsonParse => "JSON parse hatası: ",
    };
    joined(prefix, detail)
}

/// A successful query gives the first line of its output as the document,
/// and reports empty output exactly when the output is empty: a single JSON
/// line, with or without its line feed, is the document.
pub proof fn lemma_successful_query_gives_first_line(stdout: Seq<char>, stderr: Seq<char>, doc: Seq<char>, rest: Seq<char>)
    ensures
        info_document_spec(true, stdout, stderr) is Ok <==> stdout.len() > 0,
        text_lines(stdout).len() > 0 ==> info_document_spec(true, stdout, stderr) == Ok::<Seq<char>, Seq<char>>(
            text_lines(stdout)[0],
        ),
        stdout.len() == 0 ==> info_document_spec(true, stdout, stderr) == Err::<Seq<char>, Seq<char>>(
            "yt-dlp boş çıktı verdi"@,
        ),
        (forall|j: int| 0 <= j < doc.len() ==> doc[j] != '\n') ==> info_document_spec(
            true,
            doc + seq!['\n'] + rest,
            stderr,
        ) == Ok::<Seq<char>, Seq<char>>(strip_cr(doc)),
        (forall|j: int| 0 <= j < doc.len() ==> doc[j] != '\n') && doc.len() > 0 ==> info_document_spec(
            true,
            doc,
            stderr,
        ) == Ok::<Seq<char>, Seq<char>>(doc),
{
    lemma_lines_by_construction(doc, rest);
    if stdout.len() > 0 {
        crate::text::lemma_newline_index(stdout);
        assert(text_lines(stdout).len() > 0);
    }
}

/// A failed query is an error that starts with `yt-dlp hatası: ` and goes
/// on with yt-dlp's last error line (a one-line error output is that line).
pub proof fn lemma_failed_query_reports_error(stdout: Seq<char>, stderr: Seq<char>)
    ensures
        info_document_spec(false, stdout, stderr) is Err,
        text_lines(stderr).len() > 0 ==> info_document_spec(false, stdout, stderr) == Err::<Seq<char>, Seq<char>>(
            "yt-dlp hatası: "@ + text_lines(stderr).last(),
        ),
        (forall|j: int| 0 <= j < stderr.len() ==> stderr[j] != '\n') && stderr.len() > 0 ==> info_document_spec(
            false,
            stdout,
            stderr,
        ) == Err::<Seq<char>, Seq<char>>("yt-dlp hatası: "@ + stderr),
        stderr.len() == 0 ==> info_document_spec(false, stdout, stderr) == Err::<Seq<char>, Seq<char>>(
            "yt-dlp hatası: Bilinmeyen hata"@,
        ),
{
    lemma_lines_by_construction(stderr, Seq::<char>::empty());
    if stderr.len() == 0 {
        reveal_strlit("yt-dlp hatası: ");
        reveal_strlit("Bilinmeyen hata");
        reveal_strlit("yt-dlp hatası: Bilinmeyen hata");
        assert("yt-dlp hatası: "@ + "Bilinmeyen hata"@ =~= "yt-dlp hatası: Bilinmeyen hata"@);
    }
}

/// Giving an ffmpeg location appends exactly `--ffmpeg-location` and the
/// location to the arguments, whatever the format choice.
pub proof fn lemma_ffmpeg_location_is_appended(
    url: Seq<char>,
    format_id: Seq<char>,
    output_dir: Seq<char>,
    audio_only: bool,
    location: Seq<char>,
)
    ensures
        download_arguments_spec(url, format_id, output_dir, audio_only, Some(location)) == download_arguments_spec(
            url,
            format_id,
            output_dir,
            audio_only,
            None,
        ) + seq!["--ffmpeg-location"@, location],
        ({
            let args = download_arguments_spec(url, format_id, output_dir, audio_only, Some(location));
            &&& args.len() >= 2
            &&& args[args.len() - 2] == "--ffmpeg-location"@
            &&& args[args.len() - 1] == location
        }),
{
    let without = download_arguments_spec(url, format_id, output_dir, audio_only, None);
    assert(without =~= without + Seq::<Seq<char>>::empty());
}

/// The layout of the download arguments: the address, `-o` and the output
/// template under the directory, the four fixed flags; then mp3 extraction
/// of the best audio when only audio is wanted, else `-f` with the chosen
/// selector, or with the best merged video and audio when none is chosen;
/// then the ffmpeg location when there is one.
pub proof fn lemma_download_argument_layout(
    url: Seq<char>,
    format_id: Seq<char>,
    output_dir: Seq<char>,
    audio_only: bool,
    location: Option<Seq<char>>,
)
    ensures
        ({
            let args = download_arguments_spec(url, format_id, output_dir, audio_only, location);
            let choice_len: int = if audio_only { 5 } else { 2 };
            &&& args.len() == 7 + choice_len + (if location is Some { 2int } else { 0int })
            &&& args[0] == url
            &&& args[1] == "-o"@
            &&& args[2] == output_dir + "/%(title)s.%(ext)s"@
            &&& args[3] == "--newline"@
            &&& args[4] == "--progress"@
            &&& args[5] == "--no-playlist"@
            &&& args[6] == "--no-mtime"@
            &&& audio_only ==> (args[7] == "-x"@ && args[8] == "--audio-format"@ && args[9] == "mp3"@
                && args[10] == "-f"@ && args[11] == "bestaudio/best"@)
            &&& !audio_only && format_id.len() > 0 ==> (args[7] == "-f"@ && args[8] == format_id)
            &&& !audio_only && format_id.len() == 0 ==> (args[7] == "-f"@ && args[8] == "bestvideo+bestaudio/best"@)
        }),
{
}

/// The messages of the failures: each names what failed and ends with the
/// detail it was given.
pub proof fn lemma_failure_messages(kind: Failure, detail: Seq<char>)
    ensures
        failure_prefix(Failure::Run) == "yt-dlp çalıştırılamadı: "@,
        failure_prefix(Failure::Start) == "yt-dlp başlatılamadı: "@,
        failure_prefix(Failure::JsonParse) == "JSON parse hatası: "@,
        (failure_prefix(kind) + detail).subrange(
            failure_prefix(kind).len() as int,
            (failure_prefix(kind) + detail).len() as int,
        ) == detail,
{
    assert((failure_prefix(kind) + detail).subrange(
        failure_prefix(kind).len() as int,
        (failure_prefix(kind) + detail).len() as int,
    ) =~= detail);
}

/// The metadata query is the address followed by `--dump-json` and
/// `--no-playlist`.
pub proof fn lemma_info_query_layout(url: Seq<char>)
    ensures
        info_arguments_spec(url).len() == 3,
        info_arguments_spec(url)[0] == url,
        info_arguments_spec(url)[1] == "--dump-json"@,
        info_arguments_spec(url)[2] == "--no-playlist"@,
{
}

} // verus!
