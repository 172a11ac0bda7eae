use intra_api::date::yyyy_mm_dd;
use intra_api::format::{rdv_time_end, rdv_time_start, room, time};

#[test]
fn room_formats_already_clean_input() {
    assert_eq!(room("Epitech/Bureau-De-Laurene").unwrap(), "Epitech → Bureau De Laurene");
}

#[test]
fn room_strips_leading_country_and_city() {
    assert_eq!(room("FR/REN/Epitech/Bureau-De-Laurene").unwrap(), "Epitech → Bureau De Laurene");
}

#[test]
fn room_without_any_pair_is_only_rewritten() {
    assert_eq!(room("Room-1").unwrap(), "Room 1");
    assert_eq!(room("").unwrap(), "");
}

#[test]
fn time_extracts_hours_and_minutes() {
    assert_eq!(time("2020-03-21 23:42:00").unwrap(), "23:42");
}

#[test]
fn time_rejects_malformed_timestamps() {
    assert_eq!(time("2020-03-21"), None);
    assert_eq!(time("garbage"), None);
    assert_eq!(time("2020-13-01 10:00:00"), None);
    assert_eq!(time("2021-02-30 10:00:00"), None);
    assert_eq!(time("2020-03-21 24:00:00"), None);
    assert_eq!(time("2020-03-21 23:60:00"), None);
}

#[test]
fn rdv_start_is_time_extraction() {
    assert_eq!(rdv_time_start("2020-03-21 10:00:00").unwrap(), "10:00");
    assert_eq!(rdv_time_start("nope"), None);
}

#[test]
fn rdv_end_adds_whole_minutes() {
    assert_eq!(rdv_time_end("2020-03-21 10:00:00", 30).unwrap(), "10:30");
}

#[test]
fn rdv_end_wraps_past_midnight() {
    assert_eq!(rdv_time_end("2020-03-21 23:50:00", 30).unwrap(), "00:20");
    assert_eq!(rdv_time_end("2020-03-21 10:00:00", 1440).unwrap(), "10:00");
}

#[test]
fn rdv_end_takes_negative_durations_backwards() {
    assert_eq!(rdv_time_end("2020-03-21 10:00:00", -30).unwrap(), "09:30");
    assert_eq!(rdv_time_end("2020-03-21 00:10:00", -30).unwrap(), "23:40");
}

#[test]
fn rdv_end_rejects_malformed_start() {
    assert_eq!(rdv_time_end("2020-03-21", 30), None);
}

#[test]
fn dates_are_checked_against_the_calendar() {
    let d = yyyy_mm_dd("2020-03-21").unwrap();
    assert_eq!((d.year, d.month, d.day), (2020, 3, 21));
    assert!(yyyy_mm_dd("2021-02-30").is_none());
    assert!(yyyy_mm_dd("2020-02-29").is_some());
    assert!(yyyy_mm_dd("1900-02-29").is_none());
    assert!(yyyy_mm_dd("2000-02-29").is_some());
    assert!(yyyy_mm_dd("2020-00-10").is_none());
    assert!(yyyy_mm_dd("2020-1-10").is_none());
    assert!(yyyy_mm_dd("20-01-10").is_none());
}
