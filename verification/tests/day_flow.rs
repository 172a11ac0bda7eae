use intra_api::data::ShapeError;
use intra_api::day::{DayAction, DayError, DayPhase, DaySession};

const CRED: &str = "abcdefghijklmnopqrstuvwxyz1234567890abcd";
const ME: &str = "jean.dupont@epitech.eu";

fn open_session() -> DaySession {
    DaySession::new(CRED, "2020-03-21", 5, ME).unwrap()
}

fn fetch_path(s: &DaySession) -> String {
    match s.next_action() {
        DayAction::FetchAuthGet { path } => path,
        DayAction::Finished => panic!("session finished while a fetch was expected"),
    }
}

#[test]
fn session_rejects_bad_inputs_in_order() {
    let e = DaySession::new("short", "2020-03-21", 5, ME).unwrap_err();
    assert_eq!(e, DayError::BadAutologin);
    assert_eq!(e.message(), "bad autologin provided");
    assert_eq!(e.status(), 400);

    let e = DaySession::new(CRED, "2020-13-01", 5, ME).unwrap_err();
    assert_eq!(e, DayError::BadDate);
    assert_eq!(e.message(), "invalid date provided");

    let e = DaySession::new(CRED, "2020-03-21", 5, "me@gmail.com").unwrap_err();
    assert_eq!(e, DayError::BadEmail);
    assert_eq!(e.message(), "field `email` is invalid");

    // the credential is judged before the date
    let e = DaySession::new("short", "2020-13-01", 5, "broken").unwrap_err();
    assert_eq!(e, DayError::BadAutologin);
}

#[test]
fn timetable_fetch_path_embeds_credential_and_date() {
    let s = open_session();
    assert_eq!(s.phase, DayPhase::Timetable);
    assert_eq!(
        fetch_path(&s),
        format!("/auth-{CRED}/planning/load?format=json&start=2020-03-21&end=2020-03-21")
    );
}

#[test]
fn empty_object_timetable_means_no_events() {
    // the portal answers an empty object instead of an empty array
    let mut s = open_session();
    s.timetable_response("{}").unwrap();
    assert_eq!(s.phase, DayPhase::CalendarList);
    assert!(s.events.is_empty());
    // an empty calendar listing then finishes the day with an empty list
    s.calendar_list_response("[]").unwrap();
    assert_eq!(s.phase, DayPhase::Done);
    assert!(s.finish().is_empty());
}

const REGULAR_EVENT: &str = r#"{
    "semester": 5,
    "is_rdv": "0",
    "scolaryear": "2020",
    "codemodule": "B-INF-301",
    "codeinstance": "PAR-5-1",
    "codeacti": "acti-123",
    "codeevent": "event-42",
    "acti_title": "Workshop",
    "titlemodule": "Unix",
    "room": {"code": "FR/REN/Epitech/Salle-Turing"},
    "prof_inst": [{"title": "Ada"}],
    "title": "unused",
    "start": "2020-03-21 10:00:00",
    "end": "2020-03-21 12:30:00",
    "event_registered": "registered"
}"#;

#[test]
fn regular_timetable_record_is_normalized_from_json() {
    let mut s = open_session();
    let body = format!("[{REGULAR_EVENT}]");
    s.timetable_response(&body).unwrap();
    assert_eq!(s.phase, DayPhase::CalendarList);
    assert_eq!(s.events.len(), 1);
    let ev = &s.events[0];
    assert!(ev.is_regular && !ev.is_rdv && !ev.is_custom);
    assert_eq!(ev.year, 2020);
    assert_eq!(ev.semester, 5);
    assert_eq!(ev.room, "Epitech → Salle Turing");
    assert_eq!(ev.teacher, "Ada");
    assert_eq!(ev.time_start, "10:00");
    assert_eq!(ev.time_end, "12:30");
    assert!(ev.registration_status);
}

#[test]
fn invisible_semesters_are_filtered_before_field_checks() {
    // a record of a foreign semester is skipped even though its fields are broken
    let mut s = open_session();
    s.timetable_response(r#"[{"semester": 9}]"#).unwrap();
    assert!(s.events.is_empty());
    assert_eq!(s.phase, DayPhase::CalendarList);
}

#[test]
fn malformed_visible_record_fails_the_request() {
    let mut s = open_session();
    let e = s.timetable_response(r#"[{"semester": 5}]"#).unwrap_err();
    assert_eq!(e, DayError::Shape(ShapeError::IsRdvMissing));
    assert_eq!(e.message(), "value `is_rdv` does not exist");
    assert_eq!(e.status(), 500);
}

const RDV_EVENT: &str = r#"{
    "semester": 5,
    "is_rdv": "1",
    "scolaryear": "2020",
    "codemodule": "B-INF-301",
    "codeinstance": "PAR-5-1",
    "codeacti": "acti-123",
    "acti_title": "placeholder title",
    "titlemodule": "Unix",
    "start": "2020-03-21 08:00:00",
    "end": "2020-03-21 20:00:00",
    "event_registered": "registered"
}"#;

const ROSTER: &str = r#"{
    "events": [{"title": "Project follow-up"}],
    "slots": [
        {"slots": [
            {"date": "2020-03-21 10:00:00", "duration": 30,
             "master": {"login": "jean.dupont@epitech.eu"}, "members": []}
        ]}
    ]
}"#;

#[test]
fn registered_appointment_is_resolved_and_overwritten() {
    let mut s = open_session();
    let body = format!("[{RDV_EVENT}]");
    s.timetable_response(&body).unwrap();
    assert_eq!(s.phase, DayPhase::Rdv);
    let path = fetch_path(&s);
    assert_eq!(path, format!("/auth-{CRED}/module/2020/B-INF-301/PAR-5-1/acti-123/rdv/?format=json"));
    s.rdv_response(ROSTER).unwrap();
    assert_eq!(s.phase, DayPhase::CalendarList);
    let ev = &s.events[0];
    assert_eq!(ev.title, "Project follow-up");
    assert_eq!(ev.time_start, "10:00");
    assert_eq!(ev.time_end, "10:30");
    // everything else keeps its normalized value
    assert!(ev.is_rdv);
    assert_eq!(ev.module, "Unix");
}

#[test]
fn unresolvable_appointment_fails_the_whole_request() {
    // flagged registered, but the roster holds no slot for the caller
    let mut s = open_session();
    let body = format!("[{RDV_EVENT}]");
    s.timetable_response(&body).unwrap();
    assert_eq!(s.phase, DayPhase::Rdv);
    let roster = r#"{
        "events": [{"title": "Project follow-up"}],
        "slots": [{"slots": [
            {"date": "2020-03-21 10:00:00", "duration": 30,
             "master": {"login": "someone.else@epitech.eu"}, "members": []}
        ]}]
    }"#;
    let e = s.rdv_response(roster).unwrap_err();
    assert_eq!(e, DayError::Shape(ShapeError::RdvLoginNotFound));
    assert_eq!(e.status(), 500);
}

#[test]
fn unparsable_roster_is_a_parse_failure() {
    let mut s = open_session();
    let body = format!("[{RDV_EVENT}]");
    s.timetable_response(&body).unwrap();
    let e = s.rdv_response("not json at all").unwrap_err();
    assert_eq!(e, DayError::ParseFailed);
    assert_eq!(e.message(), "failed to parse intra response in json");
}

const CAL_LIST: &str = r#"[{"id": 1, "name": "Cal One"}, {"id": 2, "name": "Cal Two"}]"#;

fn custom_event_body(calendar_id: u64, title: &str, start: &str, end: &str) -> String {
    format!(
        r#"[{{"id_calendar": {calendar_id}, "id": {calendar_id}0, "title": "{title}",
             "location": "FR/REN/Epitech/Salle-Zen", "start": "{start}", "end": "{end}",
             "maker": {{"title": "Coach"}}, "event_registered": "registered"}}]"#
    )
}

#[test]
fn two_custom_calendars_each_contribute_one_tagged_event() {
    let mut s = open_session();
    s.timetable_response("{}").unwrap();
    assert_eq!(s.phase, DayPhase::CalendarList);
    assert_eq!(fetch_path(&s), format!("/auth-{CRED}/planning/list?format=json"));
    s.calendar_list_response(CAL_LIST).unwrap();
    assert_eq!(s.phase, DayPhase::CalendarDay);
    assert_eq!(
        fetch_path(&s),
        format!("/auth-{CRED}/planning/1/events?format=json&start=2020-03-21&end=2020-03-21")
    );
    s.calendar_day_response(&custom_event_body(1, "Yoga", "2020-03-21 18:00:00", "2020-03-21 19:00:00"))
        .unwrap();
    assert_eq!(s.phase, DayPhase::CalendarDay);
    s.calendar_day_response(&custom_event_body(2, "Chess", "2020-03-21 20:00:00", "2020-03-21 21:00:00"))
        .unwrap();
    assert_eq!(s.phase, DayPhase::Done);
    let events = s.finish();
    assert_eq!(events.len(), 2);
    assert!(events.iter().all(|e| e.is_custom && !e.is_rdv && !e.is_regular));
    assert_eq!(events[0].module, "Cal One");
    assert_eq!(events[0].title, "Yoga");
    assert_eq!(events[0].time_start, "18:00");
    assert_eq!(events[1].module, "Cal Two");
    assert_eq!(events[1].title, "Chess");
    assert_eq!(events[1].custom_calendar_id, 2);
    assert_eq!(events[1].custom_event_id, 20);
}

#[test]
fn custom_day_quirk_body_means_empty_calendar() {
    let mut s = open_session();
    s.timetable_response("{}").unwrap();
    s.calendar_list_response(r#"[{"id": 1, "name": "Cal One"}]"#).unwrap();
    s.calendar_day_response("{}").unwrap();
    assert_eq!(s.phase, DayPhase::Done);
    assert!(s.finish().is_empty());
}

#[test]
fn timetable_events_come_before_custom_events() {
    let mut s = open_session();
    let body = format!("[{REGULAR_EVENT}]");
    s.timetable_response(&body).unwrap();
    s.calendar_list_response(r#"[{"id": 1, "name": "Cal One"}]"#).unwrap();
    s.calendar_day_response(&custom_event_body(1, "Yoga", "2020-03-21 18:00:00", "2020-03-21 19:00:00"))
        .unwrap();
    let events = s.finish();
    assert_eq!(events.len(), 2);
    assert!(events[0].is_regular);
    assert!(events[1].is_custom);
}

#[test]
fn bad_calendar_listing_is_a_parse_failure() {
    let mut s = open_session();
    s.timetable_response("{}").unwrap();
    let e = s.calendar_list_response(r#"[{"name": "missing id"}]"#).unwrap_err();
    assert_eq!(e, DayError::ParseFailed);
}
