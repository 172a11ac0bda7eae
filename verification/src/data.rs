//! The request and response shapes of the gateway: inputs taken from the
//! caller, outputs handed back, and the canonical event record that all
//! three upstream sources are normalized into.

use vstd::prelude::*;

verus! {

/// Generic output shape: a single message, used for errors and for plain
/// acknowledgements.
#[derive(Clone, Debug)]
pub struct Default {
    /// Generic message
    pub msg: String,
}

/// User information assembled from the portal's profile record.
///
/// The weekly presence statistic of the upstream profile is a fractional
/// number and is left to the unverified rim.
#[derive(Clone, Debug)]
pub struct User {
    /// Full name (firstname and lastname)
    pub name: String,
    /// Email address
    pub email: String,
    /// First group the user belongs to (should be the city of enrolment)
    pub city: String,
    /// Student year
    pub year: u64,
    /// Current semester
    pub semester: u64,
    /// Credits obtained
    pub credits: u64,
    /// Current G.P.A
    pub gpa: String,
}

/// One custom calendar, as listed for the caller.
#[derive(Clone, Debug)]
pub struct CustomPlanningList {
    /// Custom planning ID
    pub id: u64,
    /// Custom planning name
    pub name: String,
}

/// Input addressing one custom calendar on one day.
#[derive(Clone, Debug)]
pub struct CustomPlanningEventInput {
    /// Custom planning ID
    pub calendar_id: u64,
    /// Requested date
    pub date: String,
}

/// One normalized custom-calendar event.
#[derive(Clone, Debug)]
pub struct CustomPlanningEventResult {
    /// Custom planning ID
    pub calendar_id: u64,
    /// Event ID
    pub event_id: u64,
    /// Event title
    pub title: String,
    /// Event room
    pub room: String,
    /// Event start
    pub time_start: String,
    /// Event end
    pub time_end: String,
    /// Event teacher
    pub teacher: String,
    /// Registration status
    pub registration_status: bool,
}

/// Input addressing one event of one custom calendar.
#[derive(Clone, Debug)]
pub struct CustomPlanningEventParams {
    /// Custom planning ID
    pub calendar_id: u64,
    /// Event ID
    pub event_id: u64,
}

/// Coordinates of a regular planning event.
#[derive(Clone, Debug)]
pub struct PlanningEventParams {
    /// School year of event
    pub year: u64,
    /// Code of module
    pub code_module: String,
    /// Code of module instance
    pub code_instance: String,
    /// Code of activity
    pub code_acti: String,
    /// Code of event
    pub code_event: String,
}

/// Coordinates of an event a token is registered for.
#[derive(Clone, Debug)]
pub struct PlanningTokenParams {
    /// School year of event
    pub year: u64,
    /// Code of module
    pub code_module: String,
    /// Code of module instance
    pub code_instance: String,
    /// Code of activity
    pub code_acti: String,
    /// Code of event
    pub code_event: String,
    /// Token to register
    pub token: u64,
}

/// Body of a token submission to the portal.
#[derive(Clone, Debug)]
pub struct PlanningSubmitTokenParams {
    /// Token to send
    pub token: String,
}

/// Coordinates of an appointment lookup.
#[derive(Clone, Debug)]
pub struct PlanningRdvParams {
    /// School year of event
    pub year: u64,
    /// Code of module
    pub code_module: String,
    /// Code of module instance
    pub code_instance: String,
    /// Code of activity
    pub code_acti: String,
    /// Student email address
    pub email: String,
}

/// The resolved display fields of one appointment.
#[derive(Clone, Debug)]
pub struct PlanningRdvResult {
    /// Appointment title
    pub title: String,
    /// Appointment start
    pub time_start: String,
    /// Appointment end
    pub time_end: String,
}

/// Input of a day-schedule request.
#[derive(Clone, Debug)]
pub struct PlanningDayInput {
    /// Requested date
    pub date: String,
    /// User's current semester
    pub current_semester: u64,
    /// Student email address
    pub email: String,
}

/// The canonical event shape that every source is normalized into.
#[derive(Clone, Debug)]
pub struct PlanningDayResult {
    /// Whether the event comes from a custom calendar
    pub is_custom: bool,
    /// Whether the event is an appointment
    pub is_rdv: bool,
    /// Whether the event is a regular timetable event
    pub is_regular: bool,
    /// School year of event
    pub year: u64,
    /// Code of module
    pub code_module: String,
    /// Code of module instance
    pub code_instance: String,
    /// Code of activity
    pub code_acti: String,
    /// Code of event
    pub code_event: String,
    /// Semester of event
    pub semester: u64,
    /// ID of custom calendar
    pub custom_calendar_id: u64,
    /// ID of event in custom calendar
    pub custom_event_id: u64,
    /// Event title
    pub title: String,
    /// Module name (or custom planning name)
    pub module: String,
    /// Event location
    pub room: String,
    /// Event teacher
    pub teacher: String,
    /// Event start
    pub time_start: String,
    /// Event end
    pub time_end: String,
    /// Registration status of event
    pub registration_status: bool,
}

/// The mathematical shape of a canonical event: every text field as its
/// character sequence.
pub struct EventView {
    pub is_custom: bool,
    pub is_rdv: bool,
    pub is_regular: bool,
    pub year: u64,
    pub code_module: Seq<char>,
    pub code_instance: Seq<char>,
    pub code_acti: Seq<char>,
    pub code_event: Seq<char>,
    pub semester: u64,
    pub custom_calendar_id: u64,
    pub custom_event_id: u64,
    pub title: Seq<char>,
    pub module: Seq<char>,
    pub room: Seq<char>,
    pub teacher: Seq<char>,
    pub time_start: Seq<char>,
    pub time_end: Seq<char>,
    pub registration_status: bool,
}

impl View for PlanningDayResult {
    type V = EventView;

    open spec fn view(&self) -> EventView {
        EventView {
            is_custom: self.is_custom,
            is_rdv: self.is_rdv,
            is_regular: self.is_regular,
            year: self.year,
            code_module: self.code_module@,
            code_instance: self.code_instance@,
            code_acti: self.code_acti@,
            code_event: self.code_event@,
            semester: self.semester,
            custom_calendar_id: self.custom_calendar_id,
            custom_event_id: self.custom_event_id,
            title: self.title@,
            module: self.module@,
            room: self.room@,
            teacher: self.teacher@,
            time_start: self.time_start@,
            time_end: self.time_end@,
            registration_status: self.registration_status,
        }
    }
}

/// A field of a well-shaped upstream answer that is absent or of the wrong
/// type. The named field appears in the message, since upstream shapes
/// drift.
#[derive(Clone, Copy, Debug, PartialEq, Eq, Structural)]
pub enum ShapeError {
    IsRdvMissing,
    ScolaryearMissing,
    ScolaryearNotNumber,
    CodeModuleMissing,
    CodeInstanceMissing,
    CodeActiMissing,
    CodeEventMissing,
    ActiTitleMissing,
    TitleModuleMissing,
    StartMissing,
    StartFormat,
    EndMissing,
    EndFormat,
    RegistrationMissing,
    RegistrationFormat,
    CalendarIdMissing,
    EventIdMissing,
    TitleMissing,
    MakerTitleMissing,
    RdvTitleMissing,
    SlotsNotArray,
    InnerSlotsNotArray,
    MembersNotArray,
    RdvStartExtract,
    RdvEndExtract,
    RdvLoginNotFound,
}

/// The operator-facing message of each shape error.
pub open spec fn shape_error_message(e: ShapeError) -> Seq<char> {
    match e {
        ShapeError::IsRdvMissing => "value `is_rdv` does not exist"@,
        ShapeError::ScolaryearMissing => "value `scolaryear` does not exist"@,
        ShapeError::ScolaryearNotNumber => "value `scolaryear` is not a number"@,
        ShapeError::CodeModuleMissing => "value `codemodule` does not exist"@,
        ShapeError::CodeInstanceMissing => "value `codeinstance` does not exist"@,
        ShapeError::CodeActiMissing => "value `codeacti` does not exist"@,
        ShapeError::CodeEventMissing => "value `codeevent` does not exist"@,
        ShapeError::ActiTitleMissing => "value `acti_title` does not exist"@,
        ShapeError::TitleModuleMissing => "value `titlemodule` does not exist"@,
        ShapeError::StartMissing => "value `start` does not exist"@,
        ShapeError::StartFormat => "formatting value `start` failed"@,
        ShapeError::EndMissing => "value `end` does not exist"@,
        ShapeError::EndFormat => "formatting value `end` failed"@,
        ShapeError::RegistrationMissing => "value `event_registered` does not exist"@,
        ShapeError::RegistrationFormat => "formatting value `event_registered` failed"@,
        ShapeError::CalendarIdMissing => "value `id_calendar` does not exist"@,
        ShapeError::EventIdMissing => "value `event_id` does not exist"@,
        ShapeError::TitleMissing => "value `title` does not exist"@,
        ShapeError::MakerTitleMissing => "value `maker.title` does not exist"@,
        ShapeError::RdvTitleMissing => "value `events.0.title` does not exist"@,
        ShapeError::SlotsNotArray => "value `slots` is not an array"@,
        ShapeError::InnerSlotsNotArray => "value `slots.[].slots` is not an array"@,
        ShapeError::MembersNotArray => "value `slots.[].slots.[].members` is not an array"@,
        ShapeError::RdvStartExtract => "value start of `slots.[].slots.[].date` failed to extract"@,
        ShapeError::RdvEndExtract => "value end of `slots.[].slots.[].date` failed to extract"@,
        ShapeError::RdvLoginNotFound => "failed to extract start and end of rdv (login not found)"@,
    }
}

impl ShapeError {
    /// The message shown to the caller for this shape error.
    pub fn message(&self) -> (r: String)
        ensures
            r@ == shape_error_message(*self),
    {
        match self {
            ShapeError::IsRdvMissing => String::from_str("value `is_rdv` does not exist"),
            ShapeError::ScolaryearMissing => String::from_str("value `scolaryear` does not exist"),
            ShapeError::ScolaryearNotNumber => String::from_str(
                "value `scolaryear` is not a number",
            ),
            ShapeError::CodeModuleMissing => String::from_str("value `codemodule` does not exist"),
            ShapeError::CodeInstanceMissing => String::from_str(
                "value `codeinstance` does not exist",
            ),
            ShapeError::CodeActiMissing => String::from_str("value `codeacti` does not exist"),
            ShapeError::CodeEventMissing => String::from_str("value `codeevent` does not exist"),
            ShapeError::ActiTitleMissing => String::from_str("value `acti_title` does not exist"),
            ShapeError::TitleModuleMissing => String::from_str(
                "value `titlemodule` does not exist",
            ),
            ShapeError::StartMissing => String::from_str("value `start` does not exist"),
            ShapeError::StartFormat => String::from_str("formatting value `start` failed"),
            ShapeError::EndMissing => String::from_str("value `end` does not exist"),
            ShapeError::EndFormat => String::from_str("formatting value `end` failed"),
            ShapeError::RegistrationMissing => String::from_str(
                "value `event_registered` does not exist",
            ),
            ShapeError::RegistrationFormat => String::from_str(
                "formatting value `event_registered` failed",
            ),
            ShapeError::CalendarIdMissing => String::from_str(
                "value `id_calendar` does not exist",
            ),
            ShapeError::EventIdMissing => String::from_str("value `event_id` does not exist"),
            ShapeError::TitleMissing => String::from_str("value `title` does not exist"),
            ShapeError::MakerTitleMissing => String::from_str(
                "value `maker.title` does not exist",
            ),
            ShapeError::RdvTitleMissing => String::from_str(
                "value `events.0.title` does not exist",
            ),
            ShapeError::SlotsNotArray => String::from_str("value `slots` is not an array"),
            ShapeError::InnerSlotsNotArray => String::from_str(
                "value `slots.[].slots` is not an array",
            ),
            ShapeError::MembersNotArray => String::from_str(
                "value `slots.[].slots.[].members` is not an array",
            ),
            ShapeError::RdvStartExtract => String::from_str(
                "value start of `slots.[].slots.[].date` failed to extract",
            ),
            ShapeError::RdvEndExtract => String::from_str(
                "value end of `slots.[].slots.[].date` failed to extract",
            ),
            ShapeError::RdvLoginNotFound => String::from_str(
                "failed to extract start and end of rdv (login not found)",
            ),
        }
    }
}

} // verus!
