//! The path grammar of the upstream portal, and the interpretation of its
//! answers.
//!
//! Authenticated paths embed the credential as a leading path segment —
//! that is the portal's authentication mechanism, not a header or a
//! cookie — and JSON answers are requested explicitly. The functions here
//! only build text and judge status codes; the surrounding application
//! performs the actual transfer.

use vstd::prelude::*;

use crate::data::{PlanningEventParams, PlanningRdvParams, PlanningTokenParams};
use crate::strutil::{dec_chars, u64_to_string};

verus! {

/// The authenticated form of a portal path.
pub open spec fn auth_path_chars(autologin: Seq<char>, path: Seq<char>) -> Seq<char> {
    "/auth-"@ + autologin + path
}

/// Embeds the credential in front of a portal path.
pub fn auth_path(autologin: &str, path: &str) -> (r: String)
    ensures
        r@ == auth_path_chars(autologin@, path@),
{
    let r = String::from_str("/auth-");
    let r = r.concat(autologin);
    let r = r.concat(path);
    r
}

/// The day's timetable load, bounded to one date on both ends.
pub open spec fn planning_load_path_chars(date: Seq<char>) -> Seq<char> {
    "/planning/load?format=json&start="@ + date + "&end="@ + date
}

/// Builds the timetable load path for one date.
pub fn planning_load_path(date: &str) -> (r: String)
    ensures
        r@ == planning_load_path_chars(date@),
{
    let r = String::from_str("/planning/load?format=json&start=");
    let r = r.concat(date);
    let r = r.concat("&end=");
    let r = r.concat(date);
    r
}

/// The roster of one appointment activity.
pub open spec fn rdv_path_chars(
    year: u64,
    code_module: Seq<char>,
    code_instance: Seq<char>,
    code_acti: Seq<char>,
) -> Seq<char> {
    "/module/"@ + dec_chars(year as nat) + "/"@ + code_module + "/"@ + code_instance + "/"@
        + code_acti + "/rdv/?format=json"@
}

/// Builds the appointment roster path for one module activity.
pub fn rdv_path(params: &PlanningRdvParams) -> (r: String)
    ensures
        r@ == rdv_path_chars(
            params.year,
            params.code_module@,
            params.code_instance@,
            params.code_acti@,
        ),
{
    let r = String::from_str("/module/");
    let r = r.concat(u64_to_string(params.year).as_str());
    let r = r.concat("/");
    let r = r.concat(params.code_module.as_str());
    let r = r.concat("/");
    let r = r.concat(params.code_instance.as_str());
    let r = r.concat("/");
    let r = r.concat(params.code_acti.as_str());
    let r = r.concat("/rdv/?format=json");
    r
}

/// The caller's custom-calendar listing.
pub open spec fn custom_list_path_chars() -> Seq<char> {
    "/planning/list?format=json"@
}

/// Builds the custom-calendar listing path.
pub fn custom_list_path() -> (r: String)
    ensures
        r@ == custom_list_path_chars(),
{
    String::from_str("/planning/list?format=json")
}

/// One custom calendar's events, bounded to one date on both ends.
pub open spec fn custom_day_path_chars(calendar_id: u64, date: Seq<char>) -> Seq<char> {
    "/planning/"@ + dec_chars(calendar_id as nat) + "/events?format=json&start="@ + date + "&end="@
        + date
}

/// Builds the per-day events path of one custom calendar.
pub fn custom_day_path(calendar_id: u64, date: &str) -> (r: String)
    ensures
        r@ == custom_day_path_chars(calendar_id, date@),
{
    let r = String::from_str("/planning/");
    let r = r.concat(u64_to_string(calendar_id).as_str());
    let r = r.concat("/events?format=json&start=");
    let r = r.concat(date);
    let r = r.concat("&end=");
    let r = r.concat(date);
    r
}

/// Subscription to one custom-calendar event.
pub open spec fn custom_subscribe_path_chars(calendar_id: u64, event_id: u64) -> Seq<char> {
    "/planning/"@ + dec_chars(calendar_id as nat) + "/"@ + dec_chars(event_id as nat)
        + "/subscribe?format=json"@
}

/// Builds the subscription path of one custom-calendar event.
pub fn custom_subscribe_path(calendar_id: u64, event_id: u64) -> (r: String)
    ensures
        r@ == custom_subscribe_path_chars(calendar_id, event_id),
{
    let r = String::from_str("/planning/");
    let r = r.concat(u64_to_string(calendar_id).as_str());
    let r = r.concat("/");
    let r = r.concat(u64_to_string(event_id).as_str());
    let r = r.concat("/subscribe?format=json");
    r
}

/// Withdrawal from one custom-calendar event.
pub open spec fn custom_unsubscribe_path_chars(calendar_id: u64, event_id: u64) -> Seq<char> {
    "/planning/"@ + dec_chars(calendar_id as nat) + "/"@ + dec_chars(event_id as nat)
        + "/unsubscribe?format=json"@
}

/// Builds the withdrawal path of one custom-calendar event.
pub fn custom_unsubscribe_path(calendar_id: u64, event_id: u64) -> (r: String)
    ensures
        r@ == custom_unsubscribe_path_chars(calendar_id, event_id),
{
    let r = String::from_str("/planning/");
    let r = r.concat(u64_to_string(calendar_id).as_str());
    let r = r.concat("/");
    let r = r.concat(u64_to_string(event_id).as_str());
    let r = r.concat("/unsubscribe?format=json");
    r
}

/// Withdrawal from one regular planning event.
pub open spec fn planning_unregister_path_chars(
    year: u64,
    code_module: Seq<char>,
    code_instance: Seq<char>,
    code_acti: Seq<char>,
    code_event: Seq<char>,
) -> Seq<char> {
    "/module/"@ + dec_chars(year as nat) + "/"@ + code_module + "/"@ + code_instance + "/"@
        + code_acti + "/"@ + code_event + "/unregister?format=json"@
}

/// Builds the withdrawal path of one regular planning event.
pub fn planning_unregister_path(params: &PlanningEventParams) -> (r: String)
    ensures
        r@ == planning_unregister_path_chars(
            params.year,
            params.code_module@,
            params.code_instance@,
            params.code_acti@,
            params.code_event@,
        ),
{
    let r = String::from_str("/module/");
    let r = r.concat(u64_to_string(params.year).as_str());
    let r = r.concat("/");
    let r = r.concat(params.code_module.as_str());
    let r = r.concat("/");
    let r = r.concat(params.code_instance.as_str());
    let r = r.concat("/");
    let r = r.concat(params.code_acti.as_str());
    let r = r.concat("/");
    let r = r.concat(params.code_event.as_str());
    let r = r.concat("/unregister?format=json");
    r
}

/// Token submission for one regular planning event.
pub open spec fn token_post_path_chars(
    year: u64,
    code_module: Seq<char>,
    code_instance: Seq<char>,
    code_acti: Seq<char>,
    code_event: Seq<char>,
) -> Seq<char> {
    "/module/"@ + dec_chars(year as nat) + "/"@ + code_module + "/"@ + code_instance + "/"@
        + code_acti + "/"@ + code_event + "/token?format=json"@
}

/// Builds the token submission path of one regular planning event.
pub fn token_post_path(params: &PlanningTokenParams) -> (r: String)
    ensures
        r@ == token_post_path_chars(
            params.year,
            params.code_module@,
            params.code_instance@,
            params.code_acti@,
            params.code_event@,
        ),
{
    let r = String::from_str("/module/");
    let r = r.concat(u64_to_string(params.year).as_str());
    let r = r.concat("/");
    let r = r.concat(params.code_module.as_str());
    let r = r.concat("/");
    let r = r.concat(params.code_instance.as_str());
    let r = r.concat("/");
    let r = r.concat(params.code_acti.as_str());
    let r = r.concat("/");
    let r = r.concat(params.code_event.as_str());
    let r = r.concat("/token?format=json");
    r
}

/// The portal's own landing page, used as a liveness probe.
pub fn health_probe_path() -> (r: String)
    ensures
        r@ == "/?format=json"@,
{
    String::from_str("/?format=json")
}

/// The caller's profile record.
pub fn user_info_path() -> (r: String)
    ensures
        r@ == "/user/?format=json"@,
{
    String::from_str("/user/?format=json")
}

/// Judges the portal's liveness probe: the portal refusing the anonymous
/// probe outright means it is up; anything else counts as down.
pub fn intra_health(status: u16) -> (r: (bool, String))
    ensures
        r.0 == (status == 403),
        status == 403 ==> r.1@ == "okay"@,
        status != 403 ==> r.1@ == "down"@,
{
    if status == 403 {
        (true, String::from_str("okay"))
    } else {
        (false, String::from_str("down"))
    }
}

/// Judges a custom-calendar subscription answer.
pub fn custom_register_outcome(status: u16) -> (r: (bool, String))
    ensures
        r.0 == (status == 200),
        status == 200 ==> r.1@ == "registered"@,
        status != 200 ==> r.1@ == "could not register"@,
{
    if status == 200 {
        (true, String::from_str("registered"))
    } else {
        (false, String::from_str("could not register"))
    }
}

/// The caller-facing reading of a custom-calendar withdrawal answer.
pub open spec fn custom_unregister_message(status: u16) -> Seq<char> {
    if status == 200 {
        "unregistered"@
    } else if status == 500 {
        "already unregistered"@
    } else if status == 400 {
        "past event"@
    } else if status == 403 {
        "event does not exist"@
    } else {
        "could not unregister"@
    }
}

/// Judges a custom-calendar withdrawal answer; only the plain success
/// status counts as done.
pub fn custom_unregister_outcome(status: u16) -> (r: (bool, String))
    ensures
        r.0 == (status == 200),
        r.1@ == custom_unregister_message(status),
{
    if status == 200 {
        (true, String::from_str("unregistered"))
    } else if status == 500 {
        (false, String::from_str("already unregistered"))
    } else if status == 400 {
        (false, String::from_str("past event"))
    } else if status == 403 {
        (false, String::from_str("event does not exist"))
    } else {
        (false, String::from_str("could not unregister"))
    }
}

/// The caller-facing reading of a regular-event withdrawal answer that was
/// not a plain success: the portal's error text decides between a past
/// event, a missing registration, and a failure without a usable reason.
pub open spec fn planning_unregister_message(error: Option<Seq<char>>) -> Seq<char> {
    match error {
        Some(e) => if e == "You cannot unregister from a past activity"@ {
            "past event"@
        } else {
            "not registered"@
        },
        None => "could not register"@,
    }
}

/// Judges the error payload of a failed regular-event withdrawal.
pub fn planning_unregister_outcome(error: &Option<String>) -> (r: String)
    ensures
        r@ == planning_unregister_message(
            match error {
                Some(e) => Some(e@),
                None => None,
            },
        ),
{
    match error {
        Some(e) => {
            if crate::strutil::str_eq(
                e.as_str(),
                "You cannot unregister from a past activity",
            ) {
                String::from_str("past event")
            } else {
                String::from_str("not registered")
            }
        },
        None => String::from_str("could not register"),
    }
}

/// Judges a token submission answer: an error member in the body carries
/// the portal's own words; its absence means the token was taken.
pub fn token_outcome(error: Option<String>) -> (r: (bool, String))
    ensures
        r.0 == (error is None),
        error matches Some(e) ==> r.1 == e,
        error is None ==> r.1@ == "token registered"@,
{
    match error {
        Some(e) => (false, e),
        None => (true, String::from_str("token registered")),
    }
}

/// Reads the `error` member of a portal answer, when one is there.
pub fn error_field_of_value(v: &serde_json::Value) -> Option<String> {
    match crate::json::member(v, "error") {
        Some(x) => crate::json::as_string(x),
        None => None,
    }
}

} // verus!
