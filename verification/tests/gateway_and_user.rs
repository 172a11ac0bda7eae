use intra_api::data::{PlanningEventParams, PlanningRdvParams, PlanningTokenParams};
use intra_api::gateway::{
    auth_path, custom_day_path, custom_list_path, custom_register_outcome,
    custom_subscribe_path, custom_unregister_outcome, custom_unsubscribe_path,
    error_field_of_value, health_probe_path, intra_health, planning_load_path,
    planning_unregister_outcome, planning_unregister_path, rdv_path, token_outcome,
    token_post_path, user_info_path,
};
use intra_api::user::user_of_value;

#[test]
fn authenticated_paths_embed_the_credential() {
    assert_eq!(auth_path("tok", "/user/?format=json"), "/auth-tok/user/?format=json");
}

#[test]
fn portal_paths_are_built_exactly() {
    assert_eq!(
        planning_load_path("2020-03-21"),
        "/planning/load?format=json&start=2020-03-21&end=2020-03-21"
    );
    assert_eq!(custom_list_path(), "/planning/list?format=json");
    assert_eq!(
        custom_day_path(42, "2020-03-21"),
        "/planning/42/events?format=json&start=2020-03-21&end=2020-03-21"
    );
    assert_eq!(custom_subscribe_path(3, 14), "/planning/3/14/subscribe?format=json");
    assert_eq!(custom_unsubscribe_path(3, 14), "/planning/3/14/unsubscribe?format=json");
    assert_eq!(health_probe_path(), "/?format=json");
    assert_eq!(user_info_path(), "/user/?format=json");
}

#[test]
fn module_paths_write_numbers_in_decimal() {
    let rdv = PlanningRdvParams {
        year: 2020,
        code_module: String::from("B-INF-301"),
        code_instance: String::from("PAR-5-1"),
        code_acti: String::from("acti-123"),
        email: String::from("jean.dupont@epitech.eu"),
    };
    assert_eq!(rdv_path(&rdv), "/module/2020/B-INF-301/PAR-5-1/acti-123/rdv/?format=json");

    let ev = PlanningEventParams {
        year: 0,
        code_module: String::from("B-INF-301"),
        code_instance: String::from("PAR-5-1"),
        code_acti: String::from("acti-123"),
        code_event: String::from("event-42"),
    };
    assert_eq!(
        planning_unregister_path(&ev),
        "/module/0/B-INF-301/PAR-5-1/acti-123/event-42/unregister?format=json"
    );

    let tok = PlanningTokenParams {
        year: 18446744073709551615,
        code_module: String::from("B-INF-301"),
        code_instance: String::from("PAR-5-1"),
        code_acti: String::from("acti-123"),
        code_event: String::from("event-42"),
        token: 123456,
    };
    assert_eq!(
        token_post_path(&tok),
        "/module/18446744073709551615/B-INF-301/PAR-5-1/acti-123/event-42/token?format=json"
    );
}

#[test]
fn portal_liveness_is_judged_by_the_refusal_status() {
    assert_eq!(intra_health(403), (true, String::from("okay")));
    assert_eq!(intra_health(200), (false, String::from("down")));
    assert_eq!(intra_health(500), (false, String::from("down")));
}

#[test]
fn custom_register_outcomes() {
    assert_eq!(custom_register_outcome(200), (true, String::from("registered")));
    assert_eq!(custom_register_outcome(403), (false, String::from("could not register")));
}

#[test]
fn custom_unregister_outcomes() {
    assert_eq!(custom_unregister_outcome(200), (true, String::from("unregistered")));
    assert_eq!(custom_unregister_outcome(500), (false, String::from("already unregistered")));
    assert_eq!(custom_unregister_outcome(400), (false, String::from("past event")));
    assert_eq!(custom_unregister_outcome(403), (false, String::from("event does not exist")));
    assert_eq!(custom_unregister_outcome(418), (false, String::from("could not unregister")));
}

#[test]
fn planning_unregister_outcomes() {
    assert_eq!(
        planning_unregister_outcome(&Some(String::from(
            "You cannot unregister from a past activity"
        ))),
        "past event"
    );
    assert_eq!(
        planning_unregister_outcome(&Some(String::from("something else"))),
        "not registered"
    );
    assert_eq!(planning_unregister_outcome(&None), "could not register");
}

#[test]
fn token_outcomes() {
    assert_eq!(token_outcome(None), (true, String::from("token registered")));
    assert_eq!(
        token_outcome(Some(String::from("token rejected"))),
        (false, String::from("token rejected"))
    );
}

#[test]
fn error_field_is_read_from_the_body() {
    let v: serde_json::Value = serde_json::from_str(r#"{"error": "nope"}"#).unwrap();
    assert_eq!(error_field_of_value(&v), Some(String::from("nope")));
    let v: serde_json::Value = serde_json::from_str(r#"{"ok": true}"#).unwrap();
    assert_eq!(error_field_of_value(&v), None);
}

#[test]
fn user_profile_fields_are_read_with_fallbacks() {
    let v: serde_json::Value = serde_json::from_str(
        r#"{
            "title": "Jean Dupont",
            "login": "jean.dupont@epitech.eu",
            "groups": [{"title": "Rennes"}],
            "studentyear": 3,
            "semester": 5,
            "credits": 120,
            "gpa": [{"gpa": "3.14"}]
        }"#,
    )
    .unwrap();
    let u = user_of_value(&v);
    assert_eq!(u.name, "Jean Dupont");
    assert_eq!(u.email, "jean.dupont@epitech.eu");
    assert_eq!(u.city, "Rennes");
    assert_eq!(u.year, 3);
    assert_eq!(u.semester, 5);
    assert_eq!(u.credits, 120);
    assert_eq!(u.gpa, "3.14");

    let v: serde_json::Value = serde_json::from_str("{}").unwrap();
    let u = user_of_value(&v);
    assert_eq!(u.name, "Ano Nymous");
    assert_eq!(u.email, "ano.nymous@epitech.eu");
    assert_eq!(u.city, "Homeless");
    assert_eq!(u.year, 42);
    assert_eq!(u.semester, 42);
    assert_eq!(u.credits, 0);
    assert_eq!(u.gpa, "0.00");
}
