use ytgui::progress::DownloadStatus;
use ytgui::session::{folder_choice, start_plan, stop_outcome, stop_request};

#[test]
fn starting_stops_a_running_download() {
    let p = start_plan(true);
    assert!(p.stop_previous);
    assert_eq!(p.reply, "İndirme başladı");
    assert!(!start_plan(false).stop_previous);
}

#[test]
fn stop_without_download() {
    assert_eq!(stop_request(false), Err("Aktif indirme yok".to_string()));
    assert_eq!(stop_request(true), Ok(()));
}

#[test]
fn stop_that_works() {
    let o = stop_outcome(Ok(()));
    assert!(o.clear_slot);
    assert_eq!(o.event.unwrap().status, DownloadStatus::Cancelled);
    assert_eq!(o.reply, Ok("İndirme durduruldu".to_string()));
}

#[test]
fn stop_that_fails() {
    let o = stop_outcome(Err("No such process".to_string()));
    assert!(!o.clear_slot);
    assert!(o.event.is_none());
    assert_eq!(o.reply, Err("Durdurulamadı: No such process".to_string()));
}

#[test]
fn folder_choices() {
    assert_eq!(folder_choice(Some("/home/u/Music".to_string())), Ok("/home/u/Music".to_string()));
    assert_eq!(folder_choice(None), Err("Klasör seçilmedi".to_string()));
}
