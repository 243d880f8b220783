//! Locating the two helper programs: their file names and download sources
//! on each platform, the order in which a program is looked for, and how
//! the ffmpeg archive is unpacked.
use vstd::prelude::*;

use crate::text::{joined, same_text};

verus! {

/// The operating system the application runs on.
#[derive(Clone, Copy, PartialEq, Eq, Structural, Debug)]
pub enum Platform {
    Windows,
    MacOs,
    Linux,
    Other,
}

/// The helper programs.
#[derive(Clone, Copy, PartialEq, Eq, Structural, Debug)]
pub enum Tool {
    Ytdlp,
    Ffmpeg,
}

/// The file name of a program.
pub open spec fn binary_name_spec(tool: Tool, platform: Platform) -> Seq<char> {
    match (tool, platform) {
        (Tool::Ytdlp, Platform::Windows) => "yt-dlp.exe"@,
        (Tool::Ytdlp, _) => "yt-dlp"@,
        (Tool::Ffmpeg, Platform::Windows) => "ffmpeg.exe"@,
        (Tool::Ffmpeg, _) => "ffmpeg"@,
    }
}

/// The file name of a program.
pub fn binary_name(tool: Tool, platform: Platform) -> (res: &'static str)
    ensures
        res@ == binary_name_spec(tool, platform),
{
    match (tool, platform) {
        (Tool::Ytdlp, Platform::Windows) => "yt-dlp.exe",
        (Tool::Ytdlp, _) => "yt-dlp",
        (Tool::Ffmpeg, Platform::Windows) => "ffmpeg.exe",
        (Tool::Ffmpeg, _) => "ffmpeg",
    }
}

/// Where the latest yt-dlp release for a platform is downloaded from; the
/// Linux build serves every platform that is neither Windows nor macOS.
pub open spec fn ytdlp_url_spec(platform: Platform) -> Seq<char> {
    match platform {
        Platform::Windows => "https://github.com/yt-dlp/yt-dlp/releases/latest/download/yt-dlp.exe"@,
        Platform::MacOs => "https://github.com/yt-dlp/yt-dlp/releases/latest/download/yt-dlp_macos"@,
        _ => "https://github.com/yt-dlp/yt-dlp/releases/latest/download/yt-dlp_linux"@,
    }
}

/// Where the latest yt-dlp release for a platform is downloaded from.
pub fn ytdlp_download_url(platform: Platform) -> (res: &'static str)
    ensures
        res@ == ytdlp_url_spec(platform),
{
    match platform {
        Platform::Windows => "https://github.com/yt-dlp/yt-dlp/releases/latest/download/yt-dlp.exe",
        Platform::MacOs => "https://github.com/yt-dlp/yt-dlp/releases/latest/download/yt-dlp_macos",
        _ => "https://github.com/yt-dlp/yt-dlp/releases/latest/download/yt-dlp_linux",
    }
}

/// How an ffmpeg archive is unpacked.
#[derive(Clone, Copy, PartialEq, Eq, Structural, Debug)]
pub enum Unpack {
    /// `unzip` straight into the binary directory.
    Unzip,
    /// `tar` into a scratch directory.
    Tar,
    /// PowerShell's `Expand-Archive` into a scratch directory.
    ExpandArchive,
}

/// Where a static ffmpeg build comes from on a platform and how it is unpacked.
pub struct FfmpegSource {
    /// The archive's address.
    pub url: &'static str,
    /// The file the archive is saved as, in the binary directory.
    pub archive: &'static str,
    /// The scratch directory the archive is unpacked into, in the binary
    /// directory; none when it is unpacked into the binary directory itself.
    pub scratch_dir: Option<&'static str>,
    pub unpack: Unpack,
    /// The file name to look for in the scratch directory after unpacking.
    pub locate: Option<&'static str>,
}

/// The view of an optional static text.
pub open spec fn static_view(v: Option<&'static str>) -> Option<Seq<char>> {
    match v {
        Some(s) => Some(s@),
        None => None,
    }
}

/// `s` is the ffmpeg source for a platform: a zip from evermeet.cx unzipped
/// in place on macOS, a tar.xz from johnvansickle.com on Linux, a zip from
/// gyan.dev on Windows, the last two unpacked into `ffmpeg_extract` and
/// searched for the program.
pub open spec fn is_ffmpeg_source_for(s: FfmpegSource, platform: Platform) -> bool {
    match platform {
        Platform::MacOs => {
            &&& s.url@ == "https://evermeet.cx/ffmpeg/getrelease/ffmpeg/zip"@
            &&& s.archive@ == "ffmpeg_tmp.zip"@
            &&& s.scratch_dir is None
            &&& s.unpack == Unpack::Unzip
            &&& s.locate is None
        },
        Platform::Linux => {
            &&& s.url@ == "https://johnvansickle.com/ffmpeg/releases/ffmpeg-release-amd64-static.tar.xz"@
            &&& s.archive@ == "ffmpeg_tmp.tar.xz"@
            &&& static_view(s.scratch_dir) == Some("ffmpeg_extract"@)
            &&& s.unpack == Unpack::Tar
            &&& static_view(s.locate) == Some("ffmpeg"@)
        },
        Platform::Windows => {
            &&& s.url@ == "https://www.gyan.dev/ffmpeg/builds/ffmpeg-release-essentials.zip"@
            &&& s.archive@ == "ffmpeg_tmp.zip"@
            &&& static_view(s.scratch_dir) == Some("ffmpeg_extract"@)
            &&& s.unpack == Unpack::ExpandArchive
            &&& static_view(s.locate) == Some("ffmpeg.exe"@)
        },
        Platform::Other => false,
    }
}

/// Where ffmpeg comes from on a platform; none on a platform without a
/// known build.
pub fn ffmpeg_source(platform: Platform) -> (res: Option<FfmpegSource>)
    ensures
        match res {
            Some(s) => is_ffmpeg_source_for(s, platform),
            None => platform == Platform::Other,
        },
{
    match platform {
        Platform::MacOs => Some(
            FfmpegSource {
                url: "https://evermeet.cx/ffmpeg/getrelease/ffmpeg/zip",
                archive: "ffmpeg_tmp.zip",
                scratch_dir: None,
                unpack: Unpack::Unzip,
                locate: None,
            },
        ),
        Platform::Linux => Some(
            FfmpegSource {
                url: "https://johnvansickle.com/ffmpeg/releases/ffmpeg-release-amd64-static.tar.xz",
                archive: "ffmpeg_tmp.tar.xz",
                scratch_dir: Some("ffmpeg_extract"),
                unpack: Unpack::Tar,
                locate: Some("ffmpeg"),
            },
        ),
        Platform::Windows => Some(
            FfmpegSource {
                url: "https://www.gyan.dev/ffmpeg/builds/ffmpeg-release-essentials.zip",
                archive: "ffmpeg_tmp.zip",
                scratch_dir: Some("ffmpeg_extract"),
                unpack: Unpack::ExpandArchive,
                locate: Some("ffmpeg.exe"),
            },
        ),
        Platform::Other => None,
    }
}

/// `s` ends with `suffix`.
pub open spec fn ends_with(s: Seq<char>, suffix: Seq<char>) -> bool {
    suffix.len() <= s.len() && s.subrange(s.len() - suffix.len(), s.len() as int) == suffix
}

/// The name a program is known by on every platform.
pub open spec fn program_stem(tool: Tool) -> Seq<char> {
    match tool {
        Tool::Ytdlp => "yt-dlp"@,
        Tool::Ffmpeg => "ffmpeg"@,
    }
}

/// A program's file name is its plain name with `.exe` added on Windows
/// and nothing added elsewhere; so all platforms but Windows share the name.
pub proof fn lemma_exe_suffix_only_on_windows(tool: Tool, platform: Platform)
    ensures
        platform == Platform::Windows ==> binary_name_spec(tool, platform) == program_stem(tool) + ".exe"@,
        platform != Platform::Windows ==> binary_name_spec(tool, platform) == program_stem(tool),
        platform != Platform::Windows ==> !ends_with(binary_name_spec(tool, platform), ".exe"@),
{
    reveal_strlit("yt-dlp");
    reveal_strlit("ffmpeg");
    reveal_strlit(".exe");
    reveal_strlit("yt-dlp.exe");
    reveal_strlit("ffmpeg.exe");
    assert("yt-dlp"@ + ".exe"@ =~= "yt-dlp.exe"@);
    assert("ffmpeg"@ + ".exe"@ =~= "ffmpeg.exe"@);
    if platform != Platform::Windows {
        let n = binary_name_spec(tool, platform);
        assert(n.subrange(n.len() - 4, n.len() as int)[0] != ".exe"@[0]);
    }
}

/// The yt-dlp release asset for a platform: every platform downloads from
/// the latest release, Windows gets the `.exe`, macOS the `_macos` build and
/// every other platform the `_linux` build.
pub proof fn lemma_ytdlp_release_asset(platform: Platform)
    ensures
        ytdlp_url_spec(platform) == "https://github.com/yt-dlp/yt-dlp/releases/latest/download/"@ + (match platform {
            Platform::Windows => "yt-dlp.exe"@,
            Platform::MacOs => "yt-dlp_macos"@,
            _ => "yt-dlp_linux"@,
        }),
        platform == Platform::Windows ==> ends_with(ytdlp_url_spec(platform), binary_name_spec(Tool::Ytdlp, platform)),
{
    reveal_strlit("https://github.com/yt-dlp/yt-dlp/releases/latest/download/");
    reveal_strlit("yt-dlp.exe");
    reveal_strlit("yt-dlp_macos");
    reveal_strlit("yt-dlp_linux");
    reveal_strlit("https://github.com/yt-dlp/yt-dlp/releases/latest/download/yt-dlp.exe");
    reveal_strlit("https://github.com/yt-dlp/yt-dlp/releases/latest/download/yt-dlp_macos");
    reveal_strlit("https://github.com/yt-dlp/yt-dlp/releases/latest/download/yt-dlp_linux");
    let base = "https://github.com/yt-dlp/yt-dlp/releases/latest/download/"@;
    assert(base + "yt-dlp.exe"@ =~= "https://github.com/yt-dlp/yt-dlp/releases/latest/download/yt-dlp.exe"@);
    assert(base + "yt-dlp_macos"@ =~= "https://github.com/yt-dlp/yt-dlp/releases/latest/download/yt-dlp_macos"@);
    assert(base + "yt-dlp_linux"@ =~= "https://github.com/yt-dlp/yt-dlp/releases/latest/download/yt-dlp_linux"@);
    if platform == Platform::Windows {
        let u = ytdlp_url_spec(platform);
        assert(u.subrange(u.len() - 10, u.len() as int) =~= "yt-dlp.exe"@);
    }
}

/// The unpacking of an ffmpeg archive fits its format: a `.tar.xz` is
/// unpacked with tar, a `.zip` with unzip or (only on Windows) with
/// PowerShell; the archive's name ends like its address; an archive that is
/// searched after unpacking is unpacked into a scratch directory, and the
/// file searched for is ffmpeg's program name on that platform.
pub proof fn lemma_ffmpeg_unpack_fits_archive(platform: Platform, s: FfmpegSource)
    requires
        is_ffmpeg_source_for(s, platform),
    ensures
        (s.unpack == Unpack::Tar) <==> ends_with(s.archive@, ".tar.xz"@),
        (s.unpack == Unpack::Unzip || s.unpack == Unpack::ExpandArchive) <==> ends_with(s.archive@, ".zip"@),
        (s.unpack == Unpack::ExpandArchive) <==> platform == Platform::Windows,
        ends_with(s.archive@, ".tar.xz"@) ==> ends_with(s.url@, ".tar.xz"@),
        ends_with(s.archive@, ".zip"@) ==> ends_with(s.url@, "zip"@),
        (s.scratch_dir is None) <==> (s.locate is None),
        s.locate is Some ==> s.locate->0@ == binary_name_spec(Tool::Ffmpeg, platform),
{
    reveal_strlit("ffmpeg_tmp.zip");
    reveal_strlit("ffmpeg_tmp.tar.xz");
    reveal_strlit(".zip");
    reveal_strlit(".tar.xz");
    reveal_strlit("zip");
    reveal_strlit("https://evermeet.cx/ffmpeg/getrelease/ffmpeg/zip");
    reveal_strlit("https://johnvansickle.com/ffmpeg/releases/ffmpeg-release-amd64-static.tar.xz");
    reveal_strlit("https://www.gyan.dev/ffmpeg/builds/ffmpeg-release-essentials.zip");
    let a = s.archive@;
    let u = s.url@;
    match platform {
        Platform::Linux => {
            assert(a.subrange(a.len() - 7, a.len() as int) =~= ".tar.xz"@);
            assert(a.subrange(a.len() - 4, a.len() as int)[0] != ".zip"@[0]);
            assert(u.subrange(u.len() - 7, u.len() as int) =~= ".tar.xz"@);
        },
        Platform::MacOs | Platform::Windows => {
            assert(a.subrange(a.len() - 4, a.len() as int) =~= ".zip"@);
            assert(a.subrange(a.len() - 7, a.len() as int)[0] != ".tar.xz"@[0]);
            assert(u.subrange(u.len() - 3, u.len() as int) =~= "zip"@);
        },
        Platform::Other => {},
    }
}

/// The program that unpacks an archive.
pub open spec fn unpack_program_spec(u: Unpack) -> Seq<char> {
    match u {
        Unpack::Unzip => "unzip"@,
        Unpack::Tar => "tar"@,
        Unpack::ExpandArchive => "powershell"@,
    }
}

/// The arguments that unpack `archive` into `target`.
pub open spec fn unpack_arguments_spec(u: Unpack, archive: Seq<char>, target: Seq<char>) -> Seq<Seq<char>> {
    match u {
        Unpack::Unzip => seq!["-o"@, archive, "-d"@, target],
        Unpack::Tar => seq!["-xf"@, archive, "-C"@, target],
        Unpack::ExpandArchive => seq![
            "-Command"@,
            "Expand-Archive -Path '"@ + archive + "' -DestinationPath '"@ + target + "' -Force"@,
        ],
    }
}

/// The unpacking command: tar for `Tar`, unzip for `Unzip`, PowerShell for
/// `ExpandArchive`; tar and unzip get the archive and then the target
/// directory as arguments of their own (`-xf`/`-C`, `-o`/`-d`), and
/// PowerShell one `Expand-Archive` command that names the archive and then
/// the target, each in single quotes.
pub proof fn lemma_unpack_command_shape(u: Unpack, archive: Seq<char>, target: Seq<char>)
    ensures
        u == Unpack::Tar ==> unpack_program_spec(u) == "tar"@ && unpack_arguments_spec(u, archive, target) == seq![
            "-xf"@,
            archive,
            "-C"@,
            target,
        ],
        u == Unpack::Unzip ==> unpack_program_spec(u) == "unzip"@ && unpack_arguments_spec(u, archive, target) == seq![
            "-o"@,
            archive,
            "-d"@,
            target,
        ],
        u == Unpack::ExpandArchive ==> {
            let args = unpack_arguments_spec(u, archive, target);
            &&& unpack_program_spec(u) == "powershell"@
            &&& args.len() == 2
            &&& args[0] == "-Command"@
            &&& args[1] == "Expand-Archive -Path '"@ + archive + "' -DestinationPath '"@ + target + "' -Force"@
        },
{
}

/// The program that unpacks an archive.
pub fn unpack_program(u: Unpack) -> (res: &'static str)
    ensures
        res@ == unpack_program_spec(u),
{
    match u {
        Unpack::Unzip => "unzip",
        Unpack::Tar => "tar",
        Unpack::ExpandArchive => "powershell",
    }
}

/// The arguments that unpack `archive` into `target`.
pub fn unpack_arguments(u: Unpack, archive: &str, target: &str) -> (res: Vec<String>)
    ensures
        crate::text::views(res@) == unpack_arguments_spec(u, archive@, target@),
{
    let mut v: Vec<String> = Vec::new();
    match u {
        Unpack::Unzip => {
            v.push(crate::text::owned("-o"));
            v.push(crate::text::owned(archive));
            v.push(crate::text::owned("-d"));
            v.push(crate::text::owned(target));
        },
        Unpack::Tar => {
            v.push(crate::text::owned("-xf"));
            v.push(crate::text::owned(archive));
            v.push(crate::text::owned("-C"));
            v.push(crate::text::owned(target));
        },
        Unpack::ExpandArchive => {
            v.push(crate::text::owned("-Command"));
            let a = joined("Expand-Archive -Path '", archive);
            let b = joined(a.as_str(), "' -DestinationPath '");
            let c = joined(b.as_str(), target);
            let d = joined(c.as_str(), "' -Force");
            v.push(d);
        },
    }
    assert(crate::text::views(v@) =~= unpack_arguments_spec(u, archive@, target@));
    v
}

/// How the unpacking program is named in messages.
pub open spec fn unpack_label_spec(u: Unpack) -> Seq<char> {
    match u {
        Unpack::Unzip => "unzip"@,
        Unpack::Tar => "tar"@,
        Unpack::ExpandArchive => "PowerShell"@,
    }
}

/// The message when the unpacking program could not be run.
pub fn unpack_failure(u: Unpack, detail: &str) -> (res: String)
    ensures
        res@ == unpack_label_spec(u) + " çalıştırılamadı: "@ + detail@,
{
    let label = match u {
        Unpack::Unzip => "unzip",
        Unpack::Tar => "tar",
        Unpack::ExpandArchive => "PowerShell",
    };
    let head = joined(label, " çalıştırılamadı: ");
    joined(head.as_str(), detail)
}

/// What the search for a file does with one directory entry.
#[derive(Clone, Copy, PartialEq, Eq, Structural, Debug)]
pub enum EntryStep {
    /// The entry is the wanted file: the search ends with it.
    Found,
    /// The entry is a directory: search it before the next entry.
    Descend,
    /// Go on with the next entry.
    Skip,
}

/// The entry is a file with the wanted name.
pub open spec fn is_wanted_file(is_file: bool, file_name: Option<&str>, wanted: Seq<char>) -> bool {
    is_file && match file_name {
        Some(n) => n@ == wanted,
        None => false,
    }
}

/// The step for a directory entry: a file whose name is the wanted one is
/// found; otherwise a directory is searched depth first; anything else is
/// passed over. A name that is not valid Unicode is given as `None` and
/// never matches.
pub fn entry_step(is_file: bool, is_dir: bool, file_name: Option<&str>, wanted: &str) -> (res: EntryStep)
    ensures
        (res == EntryStep::Found) <==> is_wanted_file(is_file, file_name, wanted@),
        (res == EntryStep::Descend) <==> (!is_wanted_file(is_file, file_name, wanted@) && is_dir),
{
    if is_file {
        if let Some(n) = file_name {
            if same_text(n, wanted) {
                return EntryStep::Found;
            }
        }
    }
    if is_dir {
        EntryStep::Descend
    } else {
        EntryStep::Skip
    }
}

/// What follows the unpacking of the ffmpeg archive.
pub enum AfterUnpack {
    /// Look for this file name in the scratch directory and copy it into place.
    Locate(&'static str),
    /// Go on to the final check.
    Proceed,
    /// Give up with this message.
    Fail(String),
}

/// What follows unpacking: with an in-place archive, failure unless the
/// unpacker succeeded and the program is now in place; with a scratch
/// directory, a search for the program when the unpacker succeeded.
pub open spec fn after_unpack_is(res: AfterUnpack, s: FfmpegSource, unpacked: bool, in_place: bool) -> bool {
    match s.locate {
        None => if !unpacked || !in_place {
            res matches AfterUnpack::Fail(m) && m@ == "ffmpeg arşivden çıkarılamadı"@
        } else {
            res is Proceed
        },
        Some(name) => if unpacked {
            res matches AfterUnpack::Locate(n) && n@ == name@
        } else {
            res is Proceed
        },
    }
}

/// What follows unpacking, in terms of the source: the unpacked tree is
/// searched only after the unpacker succeeded and only for a source that
/// names a file to look for, and then for that file; failure is reserved
/// for an in-place archive whose unpacker failed or left no program, with
/// its fixed message; otherwise the installation goes on.
pub proof fn lemma_after_unpack_rules(res: AfterUnpack, s: FfmpegSource, unpacked: bool, in_place: bool)
    requires
        after_unpack_is(res, s, unpacked, in_place),
    ensures
        res is Locate ==> unpacked && s.locate is Some && res->Locate_0@ == s.locate->0@,
        s.locate is Some && unpacked ==> res is Locate,
        res is Fail ==> s.locate is None && (!unpacked || !in_place) && res->Fail_0@ == "ffmpeg arşivden çıkarılamadı"@,
        s.locate is None && (!unpacked || !in_place) ==> res is Fail,
        res is Proceed <==> ((s.locate is Some && !unpacked) || (s.locate is None && unpacked && in_place)),
{
}

/// What follows the unpacking of the ffmpeg archive, given whether the
/// unpacker reported success and whether the program is in place.
pub fn after_unpack(s: &FfmpegSource, unpacked: bool, in_place: bool) -> (res: AfterUnpack)
    ensures
        after_unpack_is(res, *s, unpacked, in_place),
{
    match s.locate {
        None => if !unpacked || !in_place {
            AfterUnpack::Fail(crate::text::owned("ffmpeg arşivden çıkarılamadı"))
        } else {
            AfterUnpack::Proceed
        },
        Some(name) => if unpacked {
            AfterUnpack::Locate(name)
        } else {
            AfterUnpack::Proceed
        },
    }
}

/// The end of an ffmpeg installation: success exactly when the program is in place.
pub fn install_outcome(in_place: bool) -> (res: Result<(), String>)
    ensures
        match res {
            Ok(()) => in_place,
            Err(m) => !in_place && m@ == "ffmpeg indirilemedi — lütfen manuel olarak yükleyin"@,
        },
{
    if in_place {
        Ok(())
    } else {
        Err(crate::text::owned("ffmpeg indirilemedi — lütfen manuel olarak yükleyin"))
    }
}

/// Where the search for a program stands.
#[derive(Clone, Copy, PartialEq, Eq, Structural, Debug)]
pub enum Stage {
    /// Waiting for the remembered path and whether it is still a file.
    Cache,
    /// Waiting for the result of the search along `PATH`.
    Path,
    /// Waiting for the application's binary directory and whether the
    /// program is a file there.
    AppData,
    /// Waiting for the result of the download.
    Download,
    /// The search is over.
    Finished,
}

/// Work that the search asks of its caller.
#[derive(Clone, Copy, PartialEq, Eq, Structural, Debug)]
pub enum Probe {
    /// Look for the program in the directories of `PATH`.
    SearchPath,
    /// Find the application's binary directory and test for the program in it.
    CheckAppData,
    /// Download the program into the application's binary directory.
    Download,
}

/// What the caller found.
pub enum Finding<P> {
    /// The remembered path, if any, and whether it is still a file.
    Cache(Option<(P, bool)>),
    /// The program's path along `PATH`, if found.
    Path(Option<P>),
    /// The program's path in the binary directory and whether it is a file
    /// there, or the error that the binary directory gave.
    AppData(Result<(P, bool), String>),
    /// The downloaded program, or the error of the download.
    Download(Result<P, String>),
}

/// How the search ends.
pub enum Resolution<P> {
    /// The program, and whether this path is to be remembered.
    Found { path: P, remember: bool },
    /// ffmpeg could not be had; the application goes on without it. The
    /// text is the download's error.
    Unavailable(String),
    /// yt-dlp could not be had.
    Failed(String),
}

/// The next move of the search.
pub enum Step<P> {
    Probe(Probe),
    Done(Resolution<P>),
}

/// The search for one program.
pub struct Resolver {
    pub tool: Tool,
    pub stage: Stage,
}

/// The finding that a stage waits for.
pub open spec fn expects<P>(stage: Stage, f: Finding<P>) -> bool {
    match (stage, f) {
        (Stage::Cache, Finding::Cache(_)) => true,
        (Stage::Path, Finding::Path(_)) => true,
        (Stage::AppData, Finding::AppData(_)) => true,
        (Stage::Download, Finding::Download(_)) => true,
        _ => false,
    }
}

/// The stage that waits for the answer to a probe.
pub open spec fn stage_of(p: Probe) -> Stage {
    match p {
        Probe::SearchPath => Stage::Path,
        Probe::CheckAppData => Stage::AppData,
        Probe::Download => Stage::Download,
    }
}

/// The outcome of a failed download: yt-dlp cannot do without it, ffmpeg can.
pub open spec fn download_failure<P>(tool: Tool, e: String) -> Resolution<P> {
    match tool {
        Tool::Ytdlp => Resolution::Failed(e),
        Tool::Ffmpeg => Resolution::Unavailable(e),
    }
}

/// One move of the search: a remembered path that is still a file is
/// used as it is; then `PATH`, then the binary directory, then a download
/// are tried in turn, and a path found by them is remembered. An error of
/// the binary directory ends the search for yt-dlp and leads to the
/// download for ffmpeg; a failed download ends it for both, as a failure
/// for yt-dlp and as an absence for ffmpeg.
pub open spec fn next_move<P>(tool: Tool, stage: Stage, f: Finding<P>) -> (Stage, Step<P>) {
    match f {
        Finding::Cache(c) => match c {
            Some((p, true)) => (Stage::Finished, Step::Done(Resolution::Found { path: p, remember: false })),
            _ => (Stage::Path, Step::Probe(Probe::SearchPath)),
        },
        Finding::Path(found) => match found {
            Some(p) => (Stage::Finished, Step::Done(Resolution::Found { path: p, remember: true })),
            None => (Stage::AppData, Step::Probe(Probe::CheckAppData)),
        },
        Finding::AppData(r) => match r {
            Ok((p, true)) => (Stage::Finished, Step::Done(Resolution::Found { path: p, remember: true })),
            Ok((_, false)) => (Stage::Download, Step::Probe(Probe::Download)),
            Err(e) => match tool {
                Tool::Ytdlp => (Stage::Finished, Step::Done(Resolution::Failed(e))),
                Tool::Ffmpeg => (Stage::Download, Step::Probe(Probe::Download)),
            },
        },
        Finding::Download(r) => match r {
            Ok(p) => (Stage::Finished, Step::Done(Resolution::Found { path: p, remember: true })),
            Err(e) => (Stage::Finished, Step::Done(download_failure(tool, e))),
        },
    }
}

impl Resolver {
    /// A search that starts with the remembered path.
    pub fn new(tool: Tool) -> (res: Resolver)
        ensures
            res.tool == tool,
            res.stage == Stage::Cache,
    {
        Resolver { tool, stage: Stage::Cache }
    }

    /// Takes in what the caller found for the current stage and gives the
    /// next move.
    pub fn advance<P>(&mut self, f: Finding<P>) -> (res: Step<P>)
        requires
            expects(old(self).stage, f),
        ensures
            final(self).tool == old(self).tool,
            (final(self).stage, res) == next_move(old(self).tool, old(self).stage, f),
    {
        let tool = self.tool;
        let (stage, step) = match f {
            Finding::Cache(c) => match c {
                Some((p, true)) => (Stage::Finished, Step::Done(Resolution::Found { path: p, remember: false })),
                _ => (Stage::Path, Step::Probe(Probe::SearchPath)),
            },
            Finding::Path(found) => match found {
                Some(p) => (Stage::Finished, Step::Done(Resolution::Found { path: p, remember: true })),
                None => (Stage::AppData, Step::Probe(Probe::CheckAppData)),
            },
            Finding::AppData(r) => match r {
                Ok((p, true)) => (Stage::Finished, Step::Done(Resolution::Found { path: p, remember: true })),
                Ok((_, false)) => (Stage::Download, Step::Probe(Probe::Download)),
                Err(e) => match tool {
                    Tool::Ytdlp => (Stage::Finished, Step::Done(Resolution::Failed(e))),
                    Tool::Ffmpeg => (Stage::Download, Step::Probe(Probe::Download)),
                },
            },
            Finding::Download(r) => match r {
                Ok(p) => (Stage::Finished, Step::Done(Resolution::Found { path: p, remember: true })),
                Err(e) => match tool {
                    Tool::Ytdlp => (Stage::Finished, Step::Done(Resolution::Failed(e))),
                    Tool::Ffmpeg => (Stage::Finished, Step::Done(Resolution::Unavailable(e))),
                },
            },
        };
        self.stage = stage;
        step
    }
}

/// What the world answers to each question of the search.
pub struct Answers<P> {
    pub cache: Option<(P, bool)>,
    pub on_path: Option<P>,
    pub app_data: Result<(P, bool), String>,
    pub download: Result<P, String>,
}

/// The answer to the question a stage asks.
pub open spec fn answer_for<P>(stage: Stage, a: Answers<P>) -> Finding<P> {
    match stage {
        Stage::Cache => Finding::Cache(a.cache),
        Stage::Path => Finding::Path(a.on_path),
        Stage::AppData => Finding::AppData(a.app_data),
        _ => Finding::Download(a.download),
    }
}

/// The outcome of a search driven by `a` for at most `steps` moves, none
/// if it is not over by then.
pub open spec fn run_search<P>(tool: Tool, stage: Stage, a: Answers<P>, steps: nat) -> Option<Resolution<P>>
    decreases steps,
{
    if steps == 0 {
        None
    } else {
        let (next, step) = next_move(tool, stage, answer_for(stage, a));
        match step {
            Step::Done(r) => Some(r),
            Step::Probe(_) => run_search(tool, next, a, (steps - 1) as nat),
        }
    }
}

/// The program that the lookup order gives: the remembered path if it is
/// still a file, else the one on `PATH`, else the one in the binary
/// directory, else the downloaded one.
pub open spec fn lookup<P>(tool: Tool, a: Answers<P>) -> Resolution<P> {
    match a.cache {
        Some((p, true)) => Resolution::Found { path: p, remember: false },
        _ => match a.on_path {
            Some(p) => Resolution::Found { path: p, remember: true },
            None => match a.app_data {
                Ok((p, true)) => Resolution::Found { path: p, remember: true },
                Err(e) if tool == Tool::Ytdlp => Resolution::Failed(e),
                _ => match a.download {
                    Ok(p) => Resolution::Found { path: p, remember: true },
                    Err(e) => download_failure(tool, e),
                },
            },
        },
    }
}

/// A search that starts at the remembered path ends within four moves with
/// the program of the lookup order, whatever the world answers; every probe
/// it issues is answered at the stage it leads to.
pub proof fn lemma_search_follows_lookup_order<P>(tool: Tool, a: Answers<P>)
    ensures
        run_search(tool, Stage::Cache, a, 4) == Some(lookup(tool, a)),
        forall|stage: Stage, f: Finding<P>|
            expects(stage, f) ==> match #[trigger] next_move(tool, stage, f) {
                (next, Step::Probe(p)) => next == stage_of(p),
                (next, Step::Done(_)) => next == Stage::Finished,
            },
{
    reveal_with_fuel(run_search, 5);
}

/// The search for ffmpeg never fails: at worst ffmpeg is unavailable.
pub proof fn lemma_ffmpeg_search_never_fails<P>(a: Answers<P>)
    ensures
        !(run_search(Tool::Ffmpeg, Stage::Cache, a, 4)->0 is Failed),
{
    lemma_search_follows_lookup_order(Tool::Ffmpeg, a);
}

/// A found path is remembered exactly when it did not come from memory.
pub proof fn lemma_remember_new_paths<P>(tool: Tool, a: Answers<P>)
    ensures
        lookup(tool, a) matches Resolution::Found { path, remember } ==> (remember <==> !(a.cache matches Some(
            (_, true),
        ))),
{
}

/// The remembered path is there and is still a file.
pub open spec fn remembered_file<P>(a: Answers<P>) -> bool {
    a.cache is Some && (a.cache->0).1
}

/// What a search driven by the world's answers ends with, move by move:
/// it always ends within four moves; a remembered path that is still a file
/// is used and not remembered again; otherwise the first of `PATH`, the
/// binary directory and the download that gives the program wins and is
/// remembered; an error of the binary directory ends the yt-dlp search with
/// that error and sends the ffmpeg search on to the download; a failed
/// download ends the yt-dlp search with the download's error and leaves
/// ffmpeg unavailable with it. The program found is always one of the
/// paths the world gave.
pub proof fn lemma_search_outcomes<P>(tool: Tool, a: Answers<P>)
    ensures
        run_search(tool, Stage::Cache, a, 4) is Some,
        remembered_file(a) ==> run_search(tool, Stage::Cache, a, 4) == Some(
            Resolution::Found { path: (a.cache->0).0, remember: false },
        ),
        !remembered_file(a) && a.on_path is Some ==> run_search(tool, Stage::Cache, a, 4) == Some(
            Resolution::Found { path: a.on_path->0, remember: true },
        ),
        !remembered_file(a) && a.on_path is None && a.app_data is Ok && (a.app_data->Ok_0).1
            ==> run_search(tool, Stage::Cache, a, 4) == Some(
            Resolution::Found { path: (a.app_data->Ok_0).0, remember: true },
        ),
        !remembered_file(a) && a.on_path is None && a.app_data is Err && tool == Tool::Ytdlp
            ==> run_search(tool, Stage::Cache, a, 4) == Some(Resolution::<P>::Failed(a.app_data->Err_0)),
        !remembered_file(a) && a.on_path is None && !(a.app_data is Ok && (a.app_data->Ok_0).1) && !(a.app_data is Err
            && tool == Tool::Ytdlp) ==> run_search(tool, Stage::Cache, a, 4) == Some(
            match a.download {
                Ok(p) => Resolution::Found { path: p, remember: true },
                Err(e) => if tool == Tool::Ytdlp {
                    Resolution::Failed(e)
                } else {
                    Resolution::Unavailable(e)
                },
            },
        ),
        tool == Tool::Ytdlp ==> !(run_search(tool, Stage::Cache, a, 4)->0 is Unavailable),
        tool == Tool::Ffmpeg ==> !(run_search(tool, Stage::Cache, a, 4)->0 is Failed),
        run_search(tool, Stage::Cache, a, 4)->0 is Found ==> {
            let p = run_search(tool, Stage::Cache, a, 4)->0->path;
            ||| (a.cache is Some && p == (a.cache->0).0)
            ||| (a.on_path is Some && p == a.on_path->0)
            ||| (a.app_data is Ok && p == (a.app_data->Ok_0).0)
            ||| (a.download is Ok && p == a.download->Ok_0)
        },
{
    reveal_with_fuel(run_search, 5);
}

/// Once a search has found a program, a later search whose remembered path
/// is that program, still a file, ends at once with it and asks for nothing.
pub proof fn lemma_found_program_is_reused<P>(tool: Tool, a: Answers<P>, later: Answers<P>)
    requires
        lookup(tool, a) is Found,
        later.cache == Some((lookup(tool, a)->path, true)),
    ensures
        run_search(tool, Stage::Cache, later, 1) == Some(
            Resolution::Found { path: lookup(tool, a)->path, remember: false },
        ),
{
    reveal_with_fuel(run_search, 2);
}

/// Which programs have been located in this session.
pub struct BinaryStatus {
    pub ytdlp: bool,
    pub ffmpeg: bool,
}

/// Which programs have a remembered path.
pub fn binary_status<P>(ytdlp: &Option<P>, ffmpeg: &Option<P>) -> (res: BinaryStatus)
    ensures
        res.ytdlp == ytdlp is Some,
        res.ffmpeg == ffmpeg is Some,
{
    BinaryStatus { ytdlp: ytdlp.is_some(), ffmpeg: ffmpeg.is_some() }
}

} // verus!
