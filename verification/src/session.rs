//! The decisions around the single running download: starting one while
//! another runs, stopping it, and choosing the download folder.
use vstd::prelude::*;

use crate::progress::{cancelled_event, event_is, DownloadProgress, DownloadStatus};
use crate::text::{joined, owned};

verus! {

/// What starting a download does with the slot of the running download.
pub struct StartPlan {
    /// Stop the download that is running and wait for it first.
    pub stop_previous: bool,
    /// The answer sent once the new download runs.
    pub reply: String,
}

/// Starting a download stops the one that runs, if any, and answers that
/// the download has begun.
pub fn start_plan(download_running: bool) -> (res: StartPlan)
    ensures
        res.stop_previous == download_running,
        res.reply@ == "İndirme başladı"@,
{
    StartPlan { stop_previous: download_running, reply: owned("İndirme başladı") }
}

/// The first move of a stop request: stop the running download, or answer
/// that there is none.
pub fn stop_request(download_running: bool) -> (res: Result<(), String>)
    ensures
        res is Ok <==> download_running,
        res matches Err(m) ==> m@ == "Aktif indirme yok"@,
{
    if download_running {
        Ok(())
    } else {
        Err(owned("Aktif indirme yok"))
    }
}

/// What follows an attempt to stop the running download.
pub struct StopOutcome {
    /// Empty the slot of the running download.
    pub clear_slot: bool,
    /// The event to send to the front end.
    pub event: Option<DownloadProgress>,
    /// The answer to the request.
    pub reply: Result<String, String>,
}

/// After the running download was told to stop: when that worked, the slot
/// is emptied, a cancelled event is sent and the answer says the download
/// stopped; when it failed, nothing changes and the answer carries the error.
pub fn stop_outcome(stopped: Result<(), String>) -> (res: StopOutcome)
    ensures
        res.clear_slot <==> stopped is Ok,
        res.event is Some <==> stopped is Ok,
        res.reply is Ok <==> stopped is Ok,
        res.event matches Some(e) ==> event_is(e, "0"@, "—"@, "—"@, "—"@, DownloadStatus::Cancelled),
        res.reply matches Ok(m) ==> m@ == "İndirme durduruldu"@,
        stopped matches Err(d) ==> (res.reply matches Err(m) && m@ == "Durdurulamadı: "@ + d@),
{
    match stopped {
        Ok(()) => StopOutcome {
            clear_slot: true,
            event: Some(cancelled_event()),
            reply: Ok(owned("İndirme durduruldu")),
        },
        Err(d) => StopOutcome {
            clear_slot: false,
            event: None,
            reply: Err(joined("Durdurulamadı: ", d.as_str())),
        },
    }
}

/// The answer to a folder choice: the chosen folder, or an error when the
/// dialog was closed without a choice.
pub fn folder_choice(chosen: Option<String>) -> (res: Result<String, String>)
    ensures
        match chosen {
            Some(p) => res matches Ok(q) && q@ == p@,
            None => res matches Err(m) && m@ == "Klasör seçilmedi"@,
        },
{
    match chosen {
        Some(p) => Ok(p),
        None => Err(owned("Klasör seçilmedi")),
    }
}

} // verus!
