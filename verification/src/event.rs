//! Normalization of one raw timetable record into the canonical event
//! shape.
//!
//! The semester-visibility rule is evaluated first and cheaply: a record is
//! kept for a privileged caller (current semester at the sentinel value),
//! for a semester-agnostic record (semester zero), and for a record of the
//! caller's current or previous semester; every other record is skipped
//! silently. A record without any semester field is skipped as well — a
//! known upstream gap, not an error. Only then are fields mapped, with one
//! explicit rule per field: some fall back to fixed placeholders, others
//! are required and fail the record with a named shape error.

use vstd::prelude::*;

use crate::data::{EventView, PlanningDayResult, ShapeError};
use crate::date::valid_timestamp_chars;
use crate::format::{room, room_chars, time};
use crate::json;
use crate::strutil::{dec_digits_part, dec_val, parse_u64, str_eq, valid_u64_str};

verus! {

/// The registration field of a raw record: a textual status, an explicit
/// boolean, or absent.
pub enum RegistrationRaw {
    Text(String),
    Flag(bool),
    Missing,
}

/// One raw timetable record, reduced to the plain fields the normalizer
/// reads. Absent members are the normal case for many of them.
pub struct RawEvent {
    pub semester: Option<u64>,
    pub is_rdv_flag: Option<String>,
    pub scolaryear: Option<String>,
    pub codemodule: Option<String>,
    pub codeinstance: Option<String>,
    pub codeacti: Option<String>,
    pub codeevent: Option<String>,
    pub acti_title: Option<String>,
    pub titlemodule: Option<String>,
    pub room_code: Option<String>,
    pub prof_title: Option<String>,
    pub own_title: Option<String>,
    pub start: Option<String>,
    pub end: Option<String>,
    pub registered: RegistrationRaw,
}

/// The semester-visibility rule: a record of semester `event_semester` is
/// relevant to a caller in `caller_semester`.
pub open spec fn visible(event_semester: u64, caller_semester: u64) -> bool {
    ||| caller_semester == 42
    ||| event_semester == 0
    ||| event_semester == caller_semester
    ||| event_semester + 1 == caller_semester
}

/// A record is kept when it names a semester and that semester is visible
/// to the caller.
pub open spec fn keeps(raw: RawEvent, caller_semester: u64) -> bool {
    raw.semester matches Some(s) && visible(s, caller_semester)
}

/// A privileged caller sees every record that names a semester, whatever
/// that semester is.
pub proof fn lemma_privileged_sees_all(event_semester: u64)
    ensures
        visible(event_semester, 42),
{
}

/// A semester-agnostic record is visible to every caller.
pub proof fn lemma_semester_zero_always_visible(caller_semester: u64)
    ensures
        visible(0, caller_semester),
{
}

/// For an unprivileged caller, exactly the records of the caller's current
/// or previous semester are visible, besides the semester-agnostic ones.
pub proof fn lemma_visibility_exact(event_semester: u64, caller_semester: u64)
    requires
        caller_semester != 42,
        event_semester != 0,
    ensures
        visible(event_semester, caller_semester) <==> (event_semester == caller_semester
            || event_semester + 1 == caller_semester),
{
}

/// Whether the raw record flags itself as an appointment.
pub open spec fn spec_is_rdv(raw: RawEvent) -> bool {
    raw.is_rdv_flag matches Some(f) && f@ == "1"@
}

/// The display room of a record: the formatted room path, or the fixed
/// placeholder when no room is listed.
pub open spec fn spec_room(raw: RawEvent) -> Seq<char> {
    match raw.room_code {
        Some(rc) => room_chars(rc@),
        None => "At the bar 🍺"@,
    }
}

/// The display teacher of a record: the first listed instructor, then the
/// record's own title, then the fixed placeholder.
pub open spec fn spec_teacher(raw: RawEvent) -> Seq<char> {
    match raw.prof_title {
        Some(p) => p@,
        None => match raw.own_title {
            Some(t) => t@,
            None => "No teacher"@,
        },
    }
}

/// Whether the raw registration field means "registered". Only meaningful
/// when the field is well-shaped.
pub open spec fn spec_registered(raw: RawEvent) -> bool {
    raw.registered matches RegistrationRaw::Text(s) && (s@ == "registered"@ || s@ == "present"@)
}

/// The first missing or ill-formed field of a visible record, in the fixed
/// evaluation order.
pub open spec fn first_shape_error(raw: RawEvent) -> Option<ShapeError> {
    if raw.is_rdv_flag is None {
        Some(ShapeError::IsRdvMissing)
    } else if raw.scolaryear is None {
        Some(ShapeError::ScolaryearMissing)
    } else if !valid_u64_str(raw.scolaryear->0@) {
        Some(ShapeError::ScolaryearNotNumber)
    } else if raw.codemodule is None {
        Some(ShapeError::CodeModuleMissing)
    } else if raw.codeinstance is None {
        Some(ShapeError::CodeInstanceMissing)
    } else if raw.codeacti is None {
        Some(ShapeError::CodeActiMissing)
    } else if !spec_is_rdv(raw) && raw.codeevent is None {
        Some(ShapeError::CodeEventMissing)
    } else if raw.acti_title is None {
        Some(ShapeError::ActiTitleMissing)
    } else if raw.titlemodule is None {
        Some(ShapeError::TitleModuleMissing)
    } else if raw.start is None {
        Some(ShapeError::StartMissing)
    } else if !valid_timestamp_chars(raw.start->0@) {
        Some(ShapeError::StartFormat)
    } else if raw.end is None {
        Some(ShapeError::EndMissing)
    } else if !valid_timestamp_chars(raw.end->0@) {
        Some(ShapeError::EndFormat)
    } else if raw.registered is Missing {
        Some(ShapeError::RegistrationMissing)
    } else if raw.registered matches RegistrationRaw::Flag(b) && b {
        Some(ShapeError::RegistrationFormat)
    } else {
        None
    }
}

/// The canonical event a well-shaped visible record normalizes to.
pub open spec fn normalized_view(raw: RawEvent) -> EventView {
    EventView {
        is_custom: false,
        is_rdv: spec_is_rdv(raw),
        is_regular: !spec_is_rdv(raw),
        year: dec_val(dec_digits_part(raw.scolaryear->0@)) as u64,
        code_module: raw.codemodule->0@,
        code_instance: raw.codeinstance->0@,
        code_acti: raw.codeacti->0@,
        code_event: if spec_is_rdv(raw) {
            Seq::empty()
        } else {
            raw.codeevent->0@
        },
        semester: raw.semester->0,
        custom_calendar_id: 0,
        custom_event_id: 0,
        title: raw.acti_title->0@,
        module: raw.titlemodule->0@,
        room: spec_room(raw),
        teacher: spec_teacher(raw),
        time_start: raw.start->0@.subrange(11, 16),
        time_end: raw.end->0@.subrange(11, 16),
        registration_status: spec_registered(raw),
    }
}

/// What normalization decides for one record: keep it in canonical shape,
/// skip it silently, or fail the whole request.
pub enum NormalizeOutcome {
    Keep(PlanningDayResult),
    Skip,
    Fail(ShapeError),
}

/// Normalizes one raw timetable record for a caller in `current_semester`.
///
/// Skips exactly the records the visibility rule drops and those without a
/// semester; fails exactly on the first missing or ill-formed required
/// field; otherwise yields the canonical event, field by field.
pub fn normalize(raw: &RawEvent, current_semester: u64) -> (r: NormalizeOutcome)
    ensures
        r is Skip <==> !keeps(*raw, current_semester),
        r is Fail <==> (keeps(*raw, current_semester) && first_shape_error(*raw) is Some),
        r matches NormalizeOutcome::Fail(e) ==> first_shape_error(*raw) == Some(e),
        r matches NormalizeOutcome::Keep(ev) ==> ev@ == normalized_view(*raw),
{
    let semester = match &raw.semester {
        Some(s) => *s,
        None => {
            return NormalizeOutcome::Skip;
        },
    };
    let save_event = current_semester == 42 || semester == 0 || semester == current_semester || (
    semester < current_semester && current_semester - semester == 1);
    if !save_event {
        return NormalizeOutcome::Skip;
    }
    let is_rdv = match &raw.is_rdv_flag {
        Some(f) => str_eq(f.as_str(), "1"),
        None => {
            return NormalizeOutcome::Fail(ShapeError::IsRdvMissing);
        },
    };
    let is_regular = !is_rdv;
    let year = match &raw.scolaryear {
        Some(y) => match parse_u64(y.as_str()) {
            Some(v) => v,
            None => {
                return NormalizeOutcome::Fail(ShapeError::ScolaryearNotNumber);
            },
        },
        None => {
            return NormalizeOutcome::Fail(ShapeError::ScolaryearMissing);
        },
    };
    let code_module = match &raw.codemodule {
        Some(s) => s.clone(),
        None => {
            return NormalizeOutcome::Fail(ShapeError::CodeModuleMissing);
        },
    };
    let code_instance = match &raw.codeinstance {
        Some(s) => s.clone(),
        None => {
            return NormalizeOutcome::Fail(ShapeError::CodeInstanceMissing);
        },
    };
    let code_acti = match &raw.codeacti {
        Some(s) => s.clone(),
        None => {
            return NormalizeOutcome::Fail(ShapeError::CodeActiMissing);
        },
    };
    let code_event = if is_regular {
        match &raw.codeevent {
            Some(s) => s.clone(),
            None => {
                return NormalizeOutcome::Fail(ShapeError::CodeEventMissing);
            },
        }
    } else {
        String::new()
    };
    let title = match &raw.acti_title {
        Some(s) => s.clone(),
        None => {
            return NormalizeOutcome::Fail(ShapeError::ActiTitleMissing);
        },
    };
    let module = match &raw.titlemodule {
        Some(s) => s.clone(),
        None => {
            return NormalizeOutcome::Fail(ShapeError::TitleModuleMissing);
        },
    };
    let room_disp = match &raw.room_code {
        Some(rc) => match room(rc.as_str()) {
            Some(r) => r,
            None => {
                proof {
                    assert(false);
                }
                String::new()
            },
        },
        None => String::from_str("At the bar 🍺"),
    };
    let teacher = match &raw.prof_title {
        Some(p) => p.clone(),
        None => match &raw.own_title {
            Some(t) => t.clone(),
            None => String::from_str("No teacher"),
        },
    };
    let time_start = match &raw.start {
        Some(st) => match time(st.as_str()) {
            Some(t) => t,
            None => {
                return NormalizeOutcome::Fail(ShapeError::StartFormat);
            },
        },
        None => {
            return NormalizeOutcome::Fail(ShapeError::StartMissing);
        },
    };
    let time_end = match &raw.end {
        Some(en) => match time(en.as_str()) {
            Some(t) => t,
            None => {
                return NormalizeOutcome::Fail(ShapeError::EndFormat);
            },
        },
        None => {
            return NormalizeOutcome::Fail(ShapeError::EndMissing);
        },
    };
    let registration_status = match &raw.registered {
        RegistrationRaw::Text(s) => str_eq(s.as_str(), "registered") || str_eq(
            s.as_str(),
            "present",
        ),
        RegistrationRaw::Flag(b) => {
            if *b {
                return NormalizeOutcome::Fail(ShapeError::RegistrationFormat);
            } else {
                false
            }
        },
        RegistrationRaw::Missing => {
            return NormalizeOutcome::Fail(ShapeError::RegistrationMissing);
        },
    };
    NormalizeOutcome::Keep(
        PlanningDayResult {
            is_custom: false,
            is_rdv,
            is_regular,
            year,
            code_module,
            code_instance,
            code_acti,
            code_event,
            semester,
            custom_calendar_id: 0,
            custom_event_id: 0,
            title,
            module,
            room: room_disp,
            teacher,
            time_start,
            time_end,
            registration_status,
        },
    )
}

/// Reads the plain fields of one raw timetable record out of an upstream
/// JSON value. Whatever the value holds, every field is either carried over
/// as plain text and numbers or marked absent; the verified normalizer
/// decides what that means.
pub fn raw_event_of_value(v: &serde_json::Value) -> RawEvent {
    let semester = match json::member(v, "semester") {
        Some(x) => json::as_u64(x),
        None => None,
    };
    let is_rdv_flag = match json::member(v, "is_rdv") {
        Some(x) => json::as_string(x),
        None => None,
    };
    let scolaryear = match json::member(v, "scolaryear") {
        Some(x) => json::as_string(x),
        None => None,
    };
    let codemodule = match json::member(v, "codemodule") {
        Some(x) => json::as_string(x),
        None => None,
    };
    let codeinstance = match json::member(v, "codeinstance") {
        Some(x) => json::as_string(x),
        None => None,
    };
    let codeacti = match json::member(v, "codeacti") {
        Some(x) => json::as_string(x),
        None => None,
    };
    let codeevent = match json::member(v, "codeevent") {
        Some(x) => json::as_string(x),
        None => None,
    };
    let acti_title = match json::member(v, "acti_title") {
        Some(x) => json::as_string(x),
        None => None,
    };
    let titlemodule = match json::member(v, "titlemodule") {
        Some(x) => json::as_string(x),
        None => None,
    };
    let room_code = match json::member(v, "room") {
        Some(r) => match json::member(r, "code") {
            Some(x) => json::as_string(x),
            None => None,
        },
        None => None,
    };
    let prof_title = match json::member(v, "prof_inst") {
        Some(p) => match json::element(p, 0) {
            Some(first) => match json::member(first, "title") {
                Some(x) => json::as_string(x),
                None => None,
            },
            None => None,
        },
        None => None,
    };
    let own_title = match json::member(v, "title") {
        Some(x) => json::as_string(x),
        None => None,
    };
    let start = match json::member(v, "start") {
        Some(x) => json::as_string(x),
        None => None,
    };
    let end = match json::member(v, "end") {
        Some(x) => json::as_string(x),
        None => None,
    };
    let registered = match json::member(v, "event_registered") {
        Some(x) => match json::as_string(x) {
            Some(s) => RegistrationRaw::Text(s),
            None => match json::as_bool(x) {
                Some(b) => RegistrationRaw::Flag(b),
                None => RegistrationRaw::Missing,
            },
        },
        None => RegistrationRaw::Missing,
    };
    RawEvent {
        semester,
        is_rdv_flag,
        scolaryear,
        codemodule,
        codeinstance,
        codeacti,
        codeevent,
        acti_title,
        titlemodule,
        room_code,
        prof_title,
        own_title,
        start,
        end,
        registered,
    }
}

} // verus!
