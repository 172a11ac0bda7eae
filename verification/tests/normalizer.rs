use intra_api::custom::{normalize_custom, RawCustomEvent};
use intra_api::data::ShapeError;
use intra_api::event::{normalize, NormalizeOutcome, RawEvent, RegistrationRaw};
use intra_api::rdv::{resolve, RdvRoster, RdvSlot};

fn full_raw(semester: Option<u64>) -> RawEvent {
    RawEvent {
        semester,
        is_rdv_flag: Some(String::from("0")),
        scolaryear: Some(String::from("2020")),
        codemodule: Some(String::from("B-INF-301")),
        codeinstance: Some(String::from("PAR-5-1")),
        codeacti: Some(String::from("acti-123")),
        codeevent: Some(String::from("event-42")),
        acti_title: Some(String::from("Workshop")),
        titlemodule: Some(String::from("Unix")),
        room_code: Some(String::from("FR/REN/Epitech/Salle-Turing")),
        prof_title: Some(String::from("Ada")),
        own_title: Some(String::from("fallback title")),
        start: Some(String::from("2020-03-21 10:00:00")),
        end: Some(String::from("2020-03-21 12:30:00")),
        registered: RegistrationRaw::Text(String::from("registered")),
    }
}

fn kept(raw: &RawEvent, semester: u64) -> intra_api::data::PlanningDayResult {
    match normalize(raw, semester) {
        NormalizeOutcome::Keep(ev) => ev,
        _ => panic!("record was expected to be kept"),
    }
}

#[test]
fn privileged_caller_keeps_every_semester() {
    for s in [0u64, 1, 3, 7, 9, 41, 42, 100] {
        match normalize(&full_raw(Some(s)), 42) {
            NormalizeOutcome::Keep(_) => {}
            _ => panic!("semester {s} should be visible to the privileged caller"),
        }
    }
}

#[test]
fn semester_zero_records_kept_for_every_caller() {
    for caller in [0u64, 1, 2, 5, 9, 41] {
        match normalize(&full_raw(Some(0)), caller) {
            NormalizeOutcome::Keep(_) => {}
            _ => panic!("semester-agnostic record should be visible to caller {caller}"),
        }
    }
}

#[test]
fn current_and_previous_semester_kept_others_dropped() {
    match normalize(&full_raw(Some(5)), 5) {
        NormalizeOutcome::Keep(_) => {}
        _ => panic!("current semester should be kept"),
    }
    match normalize(&full_raw(Some(4)), 5) {
        NormalizeOutcome::Keep(_) => {}
        _ => panic!("previous semester should be kept"),
    }
    for s in [1u64, 2, 3, 6, 7, 42] {
        match normalize(&full_raw(Some(s)), 5) {
            NormalizeOutcome::Skip => {}
            _ => panic!("semester {s} should be dropped for caller 5"),
        }
    }
}

#[test]
fn record_without_semester_is_skipped_silently() {
    match normalize(&full_raw(None), 5) {
        NormalizeOutcome::Skip => {}
        _ => panic!("record without a semester should be skipped"),
    }
}

#[test]
fn kept_record_fields_are_normalized() {
    let ev = kept(&full_raw(Some(5)), 5);
    assert!(!ev.is_custom);
    assert!(!ev.is_rdv);
    assert!(ev.is_regular);
    assert_eq!(ev.year, 2020);
    assert_eq!(ev.code_module, "B-INF-301");
    assert_eq!(ev.code_instance, "PAR-5-1");
    assert_eq!(ev.code_acti, "acti-123");
    assert_eq!(ev.code_event, "event-42");
    assert_eq!(ev.semester, 5);
    assert_eq!(ev.title, "Workshop");
    assert_eq!(ev.module, "Unix");
    assert_eq!(ev.room, "Epitech → Salle Turing");
    assert_eq!(ev.teacher, "Ada");
    assert_eq!(ev.time_start, "10:00");
    assert_eq!(ev.time_end, "12:30");
    assert!(ev.registration_status);
}

#[test]
fn appointment_flag_and_empty_event_code() {
    let mut raw = full_raw(Some(5));
    raw.is_rdv_flag = Some(String::from("1"));
    raw.codeevent = None;
    let ev = kept(&raw, 5);
    assert!(ev.is_rdv);
    assert!(!ev.is_regular);
    assert_eq!(ev.code_event, "");
}

#[test]
fn missing_room_gets_placeholder_and_teacher_falls_back() {
    let mut raw = full_raw(Some(5));
    raw.room_code = None;
    raw.prof_title = None;
    let ev = kept(&raw, 5);
    assert_eq!(ev.room, "At the bar \u{1f37a}");
    assert_eq!(ev.teacher, "fallback title");
    let mut raw2 = full_raw(Some(5));
    raw2.room_code = None;
    raw2.prof_title = None;
    raw2.own_title = None;
    let ev2 = kept(&raw2, 5);
    assert_eq!(ev2.teacher, "No teacher");
}

#[test]
fn registration_shapes() {
    let mut raw = full_raw(Some(5));
    raw.registered = RegistrationRaw::Text(String::from("present"));
    assert!(kept(&raw, 5).registration_status);
    raw.registered = RegistrationRaw::Text(String::from("waiting"));
    assert!(!kept(&raw, 5).registration_status);
    raw.registered = RegistrationRaw::Flag(false);
    assert!(!kept(&raw, 5).registration_status);
    raw.registered = RegistrationRaw::Flag(true);
    match normalize(&raw, 5) {
        NormalizeOutcome::Fail(e) => assert_eq!(e, ShapeError::RegistrationFormat),
        _ => panic!("boolean true registration should fail the record"),
    }
    raw.registered = RegistrationRaw::Missing;
    match normalize(&raw, 5) {
        NormalizeOutcome::Fail(e) => assert_eq!(e, ShapeError::RegistrationMissing),
        _ => panic!("missing registration should fail the record"),
    }
}

#[test]
fn first_missing_field_decides_the_error() {
    let mut raw = full_raw(Some(5));
    raw.is_rdv_flag = None;
    raw.scolaryear = None;
    match normalize(&raw, 5) {
        NormalizeOutcome::Fail(e) => {
            assert_eq!(e, ShapeError::IsRdvMissing);
            assert_eq!(e.message(), "value `is_rdv` does not exist");
        }
        _ => panic!("missing appointment flag should fail first"),
    }
    let mut raw = full_raw(Some(5));
    raw.scolaryear = Some(String::from("twenty"));
    match normalize(&raw, 5) {
        NormalizeOutcome::Fail(e) => {
            assert_eq!(e, ShapeError::ScolaryearNotNumber);
            assert_eq!(e.message(), "value `scolaryear` is not a number");
        }
        _ => panic!("non-numeric year should fail"),
    }
    let mut raw = full_raw(Some(5));
    raw.start = Some(String::from("2020-03-21"));
    match normalize(&raw, 5) {
        NormalizeOutcome::Fail(e) => assert_eq!(e, ShapeError::StartFormat),
        _ => panic!("short start timestamp should fail"),
    }
    let mut raw = full_raw(Some(5));
    raw.end = None;
    match normalize(&raw, 5) {
        NormalizeOutcome::Fail(e) => {
            assert_eq!(e, ShapeError::EndMissing);
            assert_eq!(e.message(), "value `end` does not exist");
        }
        _ => panic!("missing end should fail"),
    }
}

fn slot(date: &str, duration: i64, master: &str, members: &[&str]) -> RdvSlot {
    RdvSlot {
        date: Some(String::from(date)),
        duration: Some(duration),
        master_login: Some(String::from(master)),
        members: Some(members.iter().map(|m| Some(String::from(*m))).collect()),
    }
}

const ME: &str = "jean.dupont@epitech.eu";

#[test]
fn resolve_finds_master_slot() {
    let roster = RdvRoster {
        title: String::from("Follow-up"),
        slots: vec![vec![slot("2020-03-21 10:00:00", 30, ME, &[])]],
    };
    let res = resolve(&roster, ME).unwrap();
    assert_eq!(res.title, "Follow-up");
    assert_eq!(res.time_start, "10:00");
    assert_eq!(res.time_end, "10:30");
}

#[test]
fn resolve_finds_member_slot() {
    let roster = RdvRoster {
        title: String::from("Follow-up"),
        slots: vec![vec![slot("2020-03-21 14:00:00", 15, "other@epitech.eu", &["x@epitech.eu", ME])]],
    };
    let res = resolve(&roster, ME).unwrap();
    assert_eq!(res.time_start, "14:00");
    assert_eq!(res.time_end, "14:15");
}

#[test]
fn resolve_last_match_wins() {
    let roster = RdvRoster {
        title: String::from("Follow-up"),
        slots: vec![
            vec![slot("2020-03-21 09:00:00", 30, ME, &[])],
            vec![slot("2020-03-21 16:00:00", 45, "other@epitech.eu", &[ME])],
        ],
    };
    let res = resolve(&roster, ME).unwrap();
    assert_eq!(res.time_start, "16:00");
    assert_eq!(res.time_end, "16:45");
}

#[test]
fn resolve_without_any_match_is_an_error() {
    let roster = RdvRoster {
        title: String::from("Follow-up"),
        slots: vec![vec![slot("2020-03-21 10:00:00", 30, "a@epitech.eu", &["b@epitech.eu"])]],
    };
    match resolve(&roster, ME) {
        Err(e) => {
            assert_eq!(e, ShapeError::RdvLoginNotFound);
            assert_eq!(e.message(), "failed to extract start and end of rdv (login not found)");
        }
        Ok(_) => panic!("a roster without the caller should not resolve"),
    }
}

#[test]
fn resolve_empty_roster_is_an_error() {
    let roster = RdvRoster { title: String::from("Follow-up"), slots: vec![] };
    assert_eq!(resolve(&roster, ME).unwrap_err(), ShapeError::RdvLoginNotFound);
}

#[test]
fn resolve_matching_slot_with_bad_fields_fails() {
    let mut s = slot("2020-03-21 10:00:00", 30, ME, &[]);
    s.date = None;
    let roster = RdvRoster { title: String::from("T"), slots: vec![vec![s]] };
    assert_eq!(resolve(&roster, ME).unwrap_err(), ShapeError::RdvStartExtract);

    let mut s = slot("2020-03-21 10:00:00", 30, ME, &[]);
    s.duration = None;
    let roster = RdvRoster { title: String::from("T"), slots: vec![vec![s]] };
    assert_eq!(resolve(&roster, ME).unwrap_err(), ShapeError::RdvEndExtract);

    let mut s = slot("2020-03-21 10:00:00", 30, "other@epitech.eu", &[]);
    s.members = None;
    let roster = RdvRoster { title: String::from("T"), slots: vec![vec![s]] };
    assert_eq!(resolve(&roster, ME).unwrap_err(), ShapeError::MembersNotArray);
}

#[test]
fn custom_event_normalization() {
    let raw = RawCustomEvent {
        calendar_id: Some(7),
        event_id: Some(70),
        title: Some(String::from("Yoga")),
        location: Some(String::from("FR/REN/Epitech/Salle-Zen")),
        start: Some(String::from("2020-03-21 18:00:00")),
        end: Some(String::from("2020-03-21 19:00:00")),
        maker_title: Some(String::from("Coach")),
        event_registered: Some(String::from("registered")),
    };
    let ev = normalize_custom(&raw).unwrap();
    assert_eq!(ev.calendar_id, 7);
    assert_eq!(ev.event_id, 70);
    assert_eq!(ev.title, "Yoga");
    assert_eq!(ev.room, "Epitech → Salle Zen");
    assert_eq!(ev.time_start, "18:00");
    assert_eq!(ev.time_end, "19:00");
    assert_eq!(ev.teacher, "Coach");
    assert!(ev.registration_status);
}

#[test]
fn custom_event_defaults_and_errors() {
    let mut raw = RawCustomEvent {
        calendar_id: Some(7),
        event_id: Some(70),
        title: Some(String::from("Yoga")),
        location: None,
        start: Some(String::from("2020-03-21 18:00:00")),
        end: Some(String::from("2020-03-21 19:00:00")),
        maker_title: Some(String::from("Coach")),
        event_registered: None,
    };
    let ev = normalize_custom(&raw).unwrap();
    assert_eq!(ev.room, "At the bar \u{1f37a}");
    assert!(!ev.registration_status);

    raw.maker_title = None;
    let e = normalize_custom(&raw).unwrap_err();
    assert_eq!(e, ShapeError::MakerTitleMissing);
    assert_eq!(e.message(), "value `maker.title` does not exist");

    raw.calendar_id = None;
    assert_eq!(normalize_custom(&raw).unwrap_err(), ShapeError::CalendarIdMissing);
}
