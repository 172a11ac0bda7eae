use intra_api::check::{activity, check, email, event, instance, module, planning_event, planning_rdv};

#[test]
fn autologin_accepts_forty_lowercase_alphanumerics() {
    let good = "abcdefghijklmnopqrstuvwxyz1234567890abcd";
    assert_eq!(good.len(), 40);
    assert_eq!(check(good), Some(true));
}

#[test]
fn autologin_rejects_short_token() {
    assert_eq!(check("abcdef"), Some(false));
}

#[test]
fn autologin_rejects_uppercase_letter() {
    let mixed = "Abcdefghijklmnopqrstuvwxyz1234567890abcd";
    assert_eq!(mixed.len(), 40);
    assert_eq!(check(mixed), Some(false));
}

#[test]
fn autologin_rejects_empty_and_symbols() {
    assert_eq!(check(""), Some(false));
    assert_eq!(check("abcdefghijklmnopqrstuvwxyz1234567890abc-"), Some(false));
}

#[test]
fn module_code_accepts_standard_form() {
    assert_eq!(module("B-INF-301"), Some(true));
}

#[test]
fn module_code_rejects_undelimited_form() {
    assert_eq!(module("binf301"), Some(false));
}

#[test]
fn module_code_edge_shapes() {
    assert_eq!(module("B--"), Some(true));
    assert_eq!(module("B-CNA-410"), Some(true));
    assert_eq!(module("b-INF-301"), Some(false));
    assert_eq!(module("B-INF"), Some(false));
    assert_eq!(module("B-INF-3a1"), Some(false));
}

#[test]
fn instance_code_accepts_standard_form() {
    assert_eq!(instance("PAR-5-1"), Some(true));
    assert_eq!(instance("REN-10-2"), Some(true));
}

#[test]
fn instance_code_rejects_missing_parts() {
    assert_eq!(instance("PAR-5"), Some(false));
    assert_eq!(instance("PAR-5-12"), Some(false));
    assert_eq!(instance("par-5-1"), Some(false));
}

#[test]
fn activity_code_accepts_acti_prefix() {
    assert_eq!(activity("acti-123"), Some(true));
    assert_eq!(activity("acti-"), Some(true));
}

#[test]
fn activity_code_rejects_other_prefix() {
    assert_eq!(activity("activity-123"), Some(false));
    assert_eq!(activity("acti-12a"), Some(false));
}

#[test]
fn event_code_shapes() {
    assert_eq!(event("event-42"), Some(true));
    assert_eq!(event("event-"), Some(true));
    assert_eq!(event("evt-42"), Some(false));
}

#[test]
fn email_shapes() {
    assert_eq!(email("jean.dupont@epitech.eu"), Some(true));
    assert_eq!(email("j-d.42@epitech.eu"), Some(true));
    assert_eq!(email("jean.dupont@gmail.com"), Some(false));
    assert_eq!(email("@epitech.eu"), Some(false));
}

#[test]
fn planning_event_names_first_invalid_field() {
    assert_eq!(
        planning_event("bad", "PAR-5-1", "acti-123", "event-42"),
        Some(String::from("field `module` is invalid"))
    );
    assert_eq!(
        planning_event("B-INF-301", "bad", "acti-123", "event-42"),
        Some(String::from("field `instance` is invalid"))
    );
    assert_eq!(
        planning_event("B-INF-301", "PAR-5-1", "bad", "event-42"),
        Some(String::from("field `activity` is invalid"))
    );
    assert_eq!(
        planning_event("B-INF-301", "PAR-5-1", "acti-123", "bad"),
        Some(String::from("field `event` is invalid"))
    );
    assert_eq!(planning_event("B-INF-301", "PAR-5-1", "acti-123", "event-42"), None);
    // several invalid fields: the first in the fixed order wins
    assert_eq!(
        planning_event("bad", "bad", "bad", "bad"),
        Some(String::from("field `module` is invalid"))
    );
}

#[test]
fn planning_rdv_names_first_invalid_field() {
    assert_eq!(planning_rdv("B-INF-301", "PAR-5-1", "acti-123", "jean.dupont@epitech.eu"), None);
    assert_eq!(
        planning_rdv("B-INF-301", "PAR-5-1", "acti-123", "nope"),
        Some(String::from("field `email` is invalid"))
    );
}
