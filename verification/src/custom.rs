//! Normalization of custom-calendar events.
//!
//! Custom calendars are user-created and fetched out of band. Their events
//! run through the same room and time formatting as timetable records, but
//! registration status defaults to false when the field is absent — there
//! is no implicit-true default.

use vstd::prelude::*;

use crate::data::{CustomPlanningEventResult, CustomPlanningList, PlanningDayResult, ShapeError};
use crate::date::valid_timestamp_chars;
use crate::format::{room, room_chars, time};
use crate::json;
use crate::strutil::str_eq;

verus! {

/// One raw custom-calendar event, reduced to the plain fields the
/// normalizer reads.
pub struct RawCustomEvent {
    pub calendar_id: Option<u64>,
    pub event_id: Option<u64>,
    pub title: Option<String>,
    pub location: Option<String>,
    pub start: Option<String>,
    pub end: Option<String>,
    pub maker_title: Option<String>,
    pub event_registered: Option<String>,
}

/// The mathematical shape of a normalized custom-calendar event.
pub struct CustomEventView {
    pub calendar_id: u64,
    pub event_id: u64,
    pub title: Seq<char>,
    pub room: Seq<char>,
    pub time_start: Seq<char>,
    pub time_end: Seq<char>,
    pub teacher: Seq<char>,
    pub registration_status: bool,
}

impl View for CustomPlanningEventResult {
    type V = CustomEventView;

    open spec fn view(&self) -> CustomEventView {
        CustomEventView {
            calendar_id: self.calendar_id,
            event_id: self.event_id,
            title: self.title@,
            room: self.room@,
            time_start: self.time_start@,
            time_end: self.time_end@,
            teacher: self.teacher@,
            registration_status: self.registration_status,
        }
    }
}

/// The first missing or ill-formed field of a raw custom event, in the
/// fixed evaluation order.
pub open spec fn first_custom_error(raw: RawCustomEvent) -> Option<ShapeError> {
    if raw.calendar_id is None {
        Some(ShapeError::CalendarIdMissing)
    } else if raw.event_id is None {
        Some(ShapeError::EventIdMissing)
    } else if raw.title is None {
        Some(ShapeError::TitleMissing)
    } else if raw.start is None {
        Some(ShapeError::StartMissing)
    } else if !valid_timestamp_chars(raw.start->0@) {
        Some(ShapeError::StartFormat)
    } else if raw.end is None {
        Some(ShapeError::EndMissing)
    } else if !valid_timestamp_chars(raw.end->0@) {
        Some(ShapeError::EndFormat)
    } else if raw.maker_title is None {
        Some(ShapeError::MakerTitleMissing)
    } else {
        None
    }
}

/// The display room of a custom event: the formatted location, or the
/// fixed placeholder when none is listed.
pub open spec fn spec_custom_room(raw: RawCustomEvent) -> Seq<char> {
    match raw.location {
        Some(l) => room_chars(l@),
        None => "At the bar 🍺"@,
    }
}

/// Whether the raw registration field of a custom event means
/// "registered"; an absent field means it does not.
pub open spec fn spec_custom_registered(raw: RawCustomEvent) -> bool {
    raw.event_registered matches Some(s) && s@ == "registered"@
}

/// The normalized shape of a well-formed raw custom event.
pub open spec fn custom_view(raw: RawCustomEvent) -> CustomEventView {
    CustomEventView {
        calendar_id: raw.calendar_id->0,
        event_id: raw.event_id->0,
        title: raw.title->0@,
        room: spec_custom_room(raw),
        time_start: raw.start->0@.subrange(11, 16),
        time_end: raw.end->0@.subrange(11, 16),
        teacher: raw.maker_title->0@,
        registration_status: spec_custom_registered(raw),
    }
}

/// Normalizes one raw custom-calendar event.
///
/// Fails exactly on the first missing or ill-formed required field;
/// otherwise yields the normalized event, field by field.
pub fn normalize_custom(raw: &RawCustomEvent) -> (r: Result<
    CustomPlanningEventResult,
    ShapeError,
>)
    ensures
        r is Ok <==> first_custom_error(*raw) is None,
        r matches Ok(ev) ==> ev@ == custom_view(*raw),
        r matches Err(e) ==> first_custom_error(*raw) == Some(e),
{
    let calendar_id = match &raw.calendar_id {
        Some(id) => *id,
        None => {
            return Err(ShapeError::CalendarIdMissing);
        },
    };
    let event_id = match &raw.event_id {
        Some(id) => *id,
        None => {
            return Err(ShapeError::EventIdMissing);
        },
    };
    let title = match &raw.title {
        Some(t) => t.clone(),
        None => {
            return Err(ShapeError::TitleMissing);
        },
    };
    let time_start = match &raw.start {
        Some(st) => match time(st.as_str()) {
            Some(t) => t,
            None => {
                return Err(ShapeError::StartFormat);
            },
        },
        None => {
            return Err(ShapeError::StartMissing);
        },
    };
    let time_end = match &raw.end {
        Some(en) => match time(en.as_str()) {
            Some(t) => t,
            None => {
                return Err(ShapeError::EndFormat);
            },
        },
        None => {
            return Err(ShapeError::EndMissing);
        },
    };
    let teacher = match &raw.maker_title {
        Some(t) => t.clone(),
        None => {
            return Err(ShapeError::MakerTitleMissing);
        },
    };
    let room_disp = match &raw.location {
        Some(l) => match room(l.as_str()) {
            Some(r) => r,
            None => {
                proof {
                    assert(false);
                }
                String::new()
            },
        },
        None => String::from_str("At the bar 🍺"),
    };
    let registration_status = match &raw.event_registered {
        Some(s) => str_eq(s.as_str(), "registered"),
        None => false,
    };
    Ok(
        CustomPlanningEventResult {
            calendar_id,
            event_id,
            title,
            room: room_disp,
            time_start,
            time_end,
            teacher,
            registration_status,
        },
    )
}

/// Tags a normalized custom event into the canonical day shape, with the
/// owning calendar's name standing in for the module name.
pub fn tag_custom(ev: &CustomPlanningEventResult, calendar: &CustomPlanningList) -> (r:
    PlanningDayResult)
    ensures
        r@.is_custom == true,
        r@.is_rdv == false,
        r@.is_regular == false,
        r@.year == 0,
        r@.code_module.len() == 0,
        r@.code_instance.len() == 0,
        r@.code_acti.len() == 0,
        r@.code_event.len() == 0,
        r@.semester == 0,
        r@.custom_calendar_id == ev.calendar_id,
        r@.custom_event_id == ev.event_id,
        r@.title == ev.title@,
        r@.module == calendar.name@,
        r@.room == ev.room@,
        r@.teacher == ev.teacher@,
        r@.time_start == ev.time_start@,
        r@.time_end == ev.time_end@,
        r@.registration_status == ev.registration_status,
{
    PlanningDayResult {
        is_custom: true,
        is_rdv: false,
        is_regular: false,
        year: 0,
        code_module: String::new(),
        code_instance: String::new(),
        code_acti: String::new(),
        code_event: String::new(),
        semester: 0,
        custom_calendar_id: ev.calendar_id,
        custom_event_id: ev.event_id,
        title: ev.title.clone(),
        module: calendar.name.clone(),
        room: ev.room.clone(),
        teacher: ev.teacher.clone(),
        time_start: ev.time_start.clone(),
        time_end: ev.time_end.clone(),
        registration_status: ev.registration_status,
    }
}

/// Reads the plain fields of one raw custom-calendar event out of an
/// upstream JSON value.
pub fn raw_custom_of_value(v: &serde_json::Value) -> RawCustomEvent {
    let calendar_id = match json::member(v, "id_calendar") {
        Some(x) => json::as_u64(x),
        None => None,
    };
    let event_id = match json::member(v, "id") {
        Some(x) => json::as_u64(x),
        None => None,
    };
    let title = match json::member(v, "title") {
        Some(x) => json::as_string(x),
        None => None,
    };
    let location = match json::member(v, "location") {
        Some(x) => json::as_string(x),
        None => None,
    };
    let start = match json::member(v, "start") {
        Some(x) => json::as_string(x),
        None => None,
    };
    let end = match json::member(v, "end") {
        Some(x) => json::as_string(x),
        None => None,
    };
    let maker_title = match json::member(v, "maker") {
        Some(m) => match json::member(m, "title") {
            Some(x) => json::as_string(x),
            None => None,
        },
        None => None,
    };
    let event_registered = match json::member(v, "event_registered") {
        Some(x) => json::as_string(x),
        None => None,
    };
    RawCustomEvent {
        calendar_id,
        event_id,
        title,
        location,
        start,
        end,
        maker_title,
        event_registered,
    }
}

} // verus!
