//! The composition root: one merged day schedule for one caller and date.
//!
//! A day request runs as a small state machine. After input validation it
//! asks for the base timetable, normalizes and filters it, then resolves
//! every kept appointment the caller is registered for — a registered
//! appointment that cannot be resolved fails the whole request, it is
//! never dropped — then lists the caller's custom calendars and appends
//! each one's events for the day, tagged with the owning calendar's name.
//! The surrounding application performs one fetch per step and hands the
//! body back; the decisions, the normalization and the order of the merged
//! list are all made here. The merged list keeps source order: the
//! timetable's own order first, then custom events in calendar-listing
//! order. No re-sort by time is applied.

use vstd::prelude::*;

use crate::check::{check, email as email_check, valid_autologin, valid_email};
use crate::custom::{normalize_custom, raw_custom_of_value, tag_custom};
use crate::data::{
    CustomPlanningList, EventView, PlanningDayResult, PlanningRdvResult, ShapeError,
    shape_error_message,
};
use crate::date::{valid_date_chars, yyyy_mm_dd};
use crate::event::{
    NormalizeOutcome, RawEvent, first_shape_error, keeps, normalize, normalized_view,
    raw_event_of_value,
};
use crate::gateway::{
    auth_path, auth_path_chars, custom_day_path, custom_day_path_chars, custom_list_path,
    custom_list_path_chars, planning_load_path, planning_load_path_chars, rdv_path,
    rdv_path_chars,
};
use crate::json;
use crate::rdv::{resolve, roster_of_value};

verus! {

/// Why a day request fails, each with its caller-facing message and
/// status class.
#[derive(Clone, Copy, Debug, PartialEq, Eq, Structural)]
pub enum DayError {
    BadAutologin,
    BadDate,
    BadEmail,
    ParseFailed,
    Shape(ShapeError),
}

/// The message of each day error.
pub open spec fn day_error_message(e: DayError) -> Seq<char> {
    match e {
        DayError::BadAutologin => "bad autologin provided"@,
        DayError::BadDate => "invalid date provided"@,
        DayError::BadEmail => "field `email` is invalid"@,
        DayError::ParseFailed => "failed to parse intra response in json"@,
        DayError::Shape(se) => shape_error_message(se),
    }
}

/// The status class of each day error: caller errors against everything
/// else.
pub open spec fn day_error_status(e: DayError) -> u16 {
    match e {
        DayError::BadAutologin => 400,
        DayError::BadDate => 400,
        DayError::BadEmail => 400,
        DayError::ParseFailed => 500,
        DayError::Shape(_) => 500,
    }
}

impl DayError {
    /// The message shown to the caller for this failure.
    pub fn message(&self) -> (r: String)
        ensures
            r@ == day_error_message(*self),
    {
        match self {
            DayError::BadAutologin => String::from_str("bad autologin provided"),
            DayError::BadDate => String::from_str("invalid date provided"),
            DayError::BadEmail => String::from_str("field `email` is invalid"),
            DayError::ParseFailed => String::from_str("failed to parse intra response in json"),
            DayError::Shape(se) => se.message(),
        }
    }

    /// The HTTP status class of this failure.
    pub fn status(&self) -> (r: u16)
        ensures
            r == day_error_status(*self),
    {
        match self {
            DayError::BadAutologin => 400,
            DayError::BadDate => 400,
            DayError::BadEmail => 400,
            DayError::ParseFailed => 500,
            DayError::Shape(_) => 500,
        }
    }
}

/// The views of a list of canonical events.
pub open spec fn views_of(evs: Seq<PlanningDayResult>) -> Seq<EventView> {
    evs.map_values(|e: PlanningDayResult| e@)
}

/// What normalizing a list of raw timetable records yields: the kept
/// records in order, or the first hard failure.
pub open spec fn collect_spec(raws: Seq<RawEvent>, caller_semester: u64) -> Result<
    Seq<EventView>,
    ShapeError,
>
    decreases raws.len(),
{
    if raws.len() == 0 {
        Ok(Seq::empty())
    } else {
        match collect_spec(raws.drop_last(), caller_semester) {
            Err(e) => Err(e),
            Ok(pre) => {
                let raw = raws.last();
                if !keeps(raw, caller_semester) {
                    Ok(pre)
                } else if first_shape_error(raw) is Some {
                    Err(first_shape_error(raw)->0)
                } else {
                    Ok(pre.push(normalized_view(raw)))
                }
            },
        }
    }
}

/// The positions of the kept events that need appointment resolution:
/// flagged as appointments and as registered.
pub open spec fn rdv_indices(evs: Seq<EventView>) -> Seq<int>
    decreases evs.len(),
{
    if evs.len() == 0 {
        Seq::empty()
    } else {
        let pre = rdv_indices(evs.drop_last());
        if evs.last().is_rdv && evs.last().registration_status {
            pre.push(evs.len() - 1)
        } else {
            pre
        }
    }
}

proof fn lemma_collect_err_persists(raws: Seq<RawEvent>, caller_semester: u64, i: int)
    requires
        0 <= i <= raws.len(),
        collect_spec(raws.subrange(0, i), caller_semester) is Err,
    ensures
        collect_spec(raws, caller_semester) == collect_spec(raws.subrange(0, i), caller_semester),
    decreases raws.len() - i,
{
    if i == raws.len() {
        assert(raws.subrange(0, i) =~= raws);
    } else {
        assert(raws.subrange(0, i + 1).drop_last() =~= raws.subrange(0, i));
        assert(raws.subrange(0, i + 1).last() == raws[i]);
        lemma_collect_err_persists(raws, caller_semester, i + 1);
    }
}

/// For a privileged caller, a timetable of well-shaped records that all
/// name a semester is kept whole: the visibility rule drops none of them.
pub proof fn lemma_privileged_caller_collects_all(raws: Seq<RawEvent>)
    requires
        forall|k: int| 0 <= k < raws.len() ==> (#[trigger] raws[k]).semester is Some,
        forall|k: int| 0 <= k < raws.len() ==> first_shape_error(#[trigger] raws[k]) is None,
    ensures
        collect_spec(raws, 42) matches Ok(evs) && evs.len() == raws.len(),
    decreases raws.len(),
{
    if raws.len() > 0 {
        assert forall|k: int|
            0 <= k < raws.drop_last().len() implies (#[trigger] raws.drop_last()[k]).semester
            is Some && first_shape_error(raws.drop_last()[k]) is None by {
            assert(raws.drop_last()[k] == raws[k]);
        }
        lemma_privileged_caller_collects_all(raws.drop_last());
        assert(keeps(raws.last(), 42));
    }
}

/// Normalizes a fetched timetable, keeping source order, and notes which
/// kept events are registered appointments.
///
/// Fails on the first record whose required fields are missing or
/// ill-formed; partial results are never returned.
pub fn collect_timetable(raws: &Vec<RawEvent>, caller_semester: u64) -> (r: Result<
    (Vec<PlanningDayResult>, Vec<usize>),
    ShapeError,
>)
    ensures
        r is Ok <==> collect_spec(raws@, caller_semester) is Ok,
        r matches Ok(p) ==> collect_spec(raws@, caller_semester) == Ok::<_, ShapeError>(
            views_of(p.0@),
        ),
        r matches Ok(p) ==> p.1@.map_values(|u: usize| u as int) == rdv_indices(views_of(p.0@)),
        r matches Ok(p) ==> forall|k: int|
            0 <= k < p.1@.len() ==> (p.1@[k] as int) < p.0@.len() && p.0@[p.1@[k] as int]@.is_rdv
                && p.0@[p.1@[k] as int]@.registration_status,
        r matches Ok(p) ==> forall|k: int|
            0 <= k < p.0@.len() ==> {
                let ev = #[trigger] p.0@[k]@;
                crate::date::is_hh_mm(ev.time_start) && crate::date::is_hh_mm(ev.time_end)
            },
        r matches Err(e) ==> collect_spec(raws@, caller_semester) == Err::<Seq<EventView>, _>(e),
{
    let mut events: Vec<PlanningDayResult> = Vec::new();
    let mut pending: Vec<usize> = Vec::new();
    proof {
        assert(raws@.subrange(0, 0) =~= Seq::<RawEvent>::empty());
        assert(views_of(events@) =~= Seq::<EventView>::empty());
        assert(pending@.map_values(|u: usize| u as int) =~= Seq::<int>::empty());
    }
    let n = raws.len();
    let mut i: usize = 0;
    while i < n
        invariant
            n == raws@.len(),
            i <= n,
            collect_spec(raws@.subrange(0, i as int), caller_semester) == Ok::<_, ShapeError>(
                views_of(events@),
            ),
            pending@.map_values(|u: usize| u as int) == rdv_indices(views_of(events@)),
            forall|k: int|
                0 <= k < pending@.len() ==> (pending@[k] as int) < events@.len()
                    && events@[pending@[k] as int]@.is_rdv
                    && events@[pending@[k] as int]@.registration_status,
            forall|k: int|
                0 <= k < events@.len() ==> {
                    let ev = #[trigger] events@[k]@;
                    crate::date::is_hh_mm(ev.time_start) && crate::date::is_hh_mm(ev.time_end)
                },
        decreases n - i,
    {
        let raw = vstd::std_specs::vec::vec_index(raws, i);
        let ghost old_events = events@;
        let ghost old_pending = pending@;
        proof {
            assert(raws@.subrange(0, i + 1).drop_last() =~= raws@.subrange(0, i as int));
            assert(raws@.subrange(0, i + 1).last() == raws@[i as int]);
        }
        match normalize(raw, caller_semester) {
            NormalizeOutcome::Skip => {},
            NormalizeOutcome::Fail(e) => {
                proof {
                    lemma_collect_err_persists(raws@, caller_semester, i + 1);
                }
                return Err(e);
            },
            NormalizeOutcome::Keep(ev) => {
                proof {
                    crate::date::lemma_timestamp_hh_mm(raw.start->0@);
                    crate::date::lemma_timestamp_hh_mm(raw.end->0@);
                }
                let needs_rdv = ev.is_rdv && ev.registration_status;
                let idx = events.len();
                events.push(ev);
                proof {
                    assert(views_of(events@) =~= views_of(old_events).push(
                        normalized_view(raws@[i as int]),
                    ));
                }
                if needs_rdv {
                    pending.push(idx);
                    proof {
                        assert(pending@.map_values(|u: usize| u as int)
                            =~= old_pending.map_values(|u: usize| u as int).push(idx as int));
                        assert(views_of(events@).drop_last() =~= views_of(old_events));
                    }
                } else {
                    proof {
                        assert(views_of(events@).drop_last() =~= views_of(old_events));
                    }
                }
            },
        }
        i = i + 1;
    }
    proof {
        assert(raws@.subrange(0, n as int) =~= raws@);
    }
    Ok((events, pending))
}

/// Reads the custom-calendar listing out of its JSON values: every entry
/// must carry its id and name.
fn parse_calendar_list(values: &Vec<serde_json::Value>) -> (r: Result<
    Vec<CustomPlanningList>,
    DayError,
>)
    ensures
        r matches Err(e) ==> e is ParseFailed,
{
    let mut calendars: Vec<CustomPlanningList> = Vec::new();
    let n = values.len();
    let mut i: usize = 0;
    while i < n
        invariant
            n == values@.len(),
        decreases n - i,
    {
        let v = vstd::std_specs::vec::vec_index(values, i);
        let id = match json::member(v, "id") {
            Some(x) => match json::as_u64(x) {
                Some(id) => id,
                None => {
                    return Err(DayError::ParseFailed);
                },
            },
            None => {
                return Err(DayError::ParseFailed);
            },
        };
        let name = match json::member(v, "name") {
            Some(x) => match json::as_string(x) {
                Some(s) => s,
                None => {
                    return Err(DayError::ParseFailed);
                },
            },
            None => {
                return Err(DayError::ParseFailed);
            },
        };
        calendars.push(CustomPlanningList { id, name });
        i = i + 1;
    }
    Ok(calendars)
}

/// Normalizes one custom calendar's day of JSON values and tags each event
/// with the owning calendar.
fn collect_custom(values: &Vec<serde_json::Value>, cal: &CustomPlanningList) -> (r: Result<
    Vec<PlanningDayResult>,
    DayError,
>)
    ensures
        r matches Err(e) ==> e is Shape,
        r matches Ok(evs) ==> forall|k: int|
            0 <= k < evs@.len() ==> {
                let ev = #[trigger] evs@[k]@;
                &&& ev.is_custom == true
                &&& ev.is_rdv == false
                &&& ev.is_regular == false
                &&& ev.module == cal.name@
                &&& crate::date::is_hh_mm(ev.time_start)
                &&& crate::date::is_hh_mm(ev.time_end)
            },
{
    let mut appended: Vec<PlanningDayResult> = Vec::new();
    let n = values.len();
    let mut i: usize = 0;
    while i < n
        invariant
            n == values@.len(),
            forall|k: int|
                0 <= k < appended@.len() ==> {
                    let ev = #[trigger] appended@[k]@;
                    &&& ev.is_custom == true
                    &&& ev.is_rdv == false
                    &&& ev.is_regular == false
                    &&& ev.module == cal.name@
                    &&& crate::date::is_hh_mm(ev.time_start)
                    &&& crate::date::is_hh_mm(ev.time_end)
                },
        decreases n - i,
    {
        let raw = raw_custom_of_value(vstd::std_specs::vec::vec_index(values, i));
        match normalize_custom(&raw) {
            Ok(ev) => {
                proof {
                    crate::date::lemma_timestamp_hh_mm(raw.start->0@);
                    crate::date::lemma_timestamp_hh_mm(raw.end->0@);
                }
                appended.push(tag_custom(&ev, cal));
            },
            Err(e) => {
                return Err(DayError::Shape(e));
            },
        }
        i = i + 1;
    }
    Ok(appended)
}

/// The phase a day request is in: one fetch per step, in fixed order.
#[derive(Clone, Copy, Debug, PartialEq, Eq, Structural)]
pub enum DayPhase {
    Timetable,
    Rdv,
    CalendarList,
    CalendarDay,
    Done,
}

/// What the application must do next for the session: fetch one
/// authenticated portal path, or nothing more.
#[derive(Debug)]
pub enum DayAction {
    FetchAuthGet { path: String },
    Finished,
}

/// One day request in flight: the validated inputs, the events collected
/// so far, and the bookkeeping of the remaining fetches.
#[derive(Debug)]
pub struct DaySession {
    pub autologin: String,
    pub email: String,
    pub semester: u64,
    pub date: String,
    pub events: Vec<PlanningDayResult>,
    pub pending: Vec<usize>,
    pub next_rdv: usize,
    pub calendars: Vec<CustomPlanningList>,
    pub next_calendar: usize,
    pub phase: DayPhase,
}

impl DaySession {
    /// The session's standing well-formedness: validated inputs and
    /// bookkeeping that stays within bounds.
    pub open spec fn wf(self) -> bool {
        &&& valid_autologin(self.autologin@)
        &&& valid_date_chars(self.date@)
        &&& valid_email(self.email@)
        &&& self.next_rdv <= self.pending@.len()
        &&& forall|k: int|
            0 <= k < self.pending@.len() ==> (self.pending@[k] as int) < self.events@.len()
                && self.events@[self.pending@[k] as int]@.is_rdv
                && self.events@[self.pending@[k] as int]@.registration_status
        &&& self.next_calendar <= self.calendars@.len()
        &&& forall|k: int|
            0 <= k < self.events@.len() ==> {
                let ev = #[trigger] self.events@[k]@;
                crate::date::is_hh_mm(ev.time_start) && crate::date::is_hh_mm(ev.time_end)
            }
        &&& (self.phase is Timetable ==> self.events@.len() == 0 && self.pending@.len() == 0)
        &&& (self.phase is Rdv ==> self.next_rdv < self.pending@.len())
        &&& (self.phase is CalendarDay ==> self.next_calendar < self.calendars@.len())
    }

    /// Opens a day request, failing fast on the credential, the date and
    /// the email, in that order.
    pub fn new(autologin: &str, date: &str, current_semester: u64, email: &str) -> (r: Result<
        DaySession,
        DayError,
    >)
        ensures
            r is Err <==> (!valid_autologin(autologin@) || !valid_date_chars(date@)
                || !valid_email(email@)),
            r matches Err(e) ==> e == (if !valid_autologin(autologin@) {
                DayError::BadAutologin
            } else if !valid_date_chars(date@) {
                DayError::BadDate
            } else {
                DayError::BadEmail
            }),
            r matches Ok(s) ==> {
                &&& s.wf()
                &&& s.phase is Timetable
                &&& s.autologin@ == autologin@
                &&& s.date@ == date@
                &&& s.email@ == email@
                &&& s.semester == current_semester
                &&& s.events@.len() == 0
                &&& s.calendars@.len() == 0
            },
    {
        match check(autologin) {
            Some(true) => {},
            _ => {
                return Err(DayError::BadAutologin);
            },
        }
        if yyyy_mm_dd(date).is_none() {
            return Err(DayError::BadDate);
        }
        match email_check(email) {
            Some(true) => {},
            _ => {
                return Err(DayError::BadEmail);
            },
        }
        Ok(
            DaySession {
                autologin: String::from_str(autologin),
                email: String::from_str(email),
                semester: current_semester,
                date: String::from_str(date),
                events: Vec::new(),
                pending: Vec::new(),
                next_rdv: 0,
                calendars: Vec::new(),
                next_calendar: 0,
                phase: DayPhase::Timetable,
            },
        )
    }

    /// The next fetch the application must perform, as an authenticated
    /// portal path, or nothing more once the session is done.
    pub fn next_action(&self) -> (r: DayAction)
        requires
            self.wf(),
        ensures
            self.phase is Timetable ==> (r matches DayAction::FetchAuthGet { path } && path@
                == auth_path_chars(self.autologin@, planning_load_path_chars(self.date@))),
            self.phase is Rdv ==> (r matches DayAction::FetchAuthGet { path } && path@
                == auth_path_chars(
                self.autologin@,
                rdv_path_chars(
                    self.events@[self.pending@[self.next_rdv as int] as int]@.year,
                    self.events@[self.pending@[self.next_rdv as int] as int]@.code_module,
                    self.events@[self.pending@[self.next_rdv as int] as int]@.code_instance,
                    self.events@[self.pending@[self.next_rdv as int] as int]@.code_acti,
                ),
            )),
            self.phase is CalendarList ==> (r matches DayAction::FetchAuthGet { path } && path@
                == auth_path_chars(self.autologin@, custom_list_path_chars())),
            self.phase is CalendarDay ==> (r matches DayAction::FetchAuthGet { path } && path@
                == auth_path_chars(
                self.autologin@,
                custom_day_path_chars(
                    self.calendars@[self.next_calendar as int].id,
                    self.date@,
                ),
            )),
            self.phase is Done ==> r is Finished,
    {
        match self.phase {
            DayPhase::Timetable => DayAction::FetchAuthGet {
                path: auth_path(self.autologin.as_str(), planning_load_path(self.date.as_str()).as_str()),
            },
            DayPhase::Rdv => {
                let idx = self.pending[self.next_rdv];
                let ev = vstd::std_specs::vec::vec_index(&self.events, idx);
                let params = crate::data::PlanningRdvParams {
                    year: ev.year,
                    code_module: ev.code_module.clone(),
                    code_instance: ev.code_instance.clone(),
                    code_acti: ev.code_acti.clone(),
                    email: self.email.clone(),
                };
                DayAction::FetchAuthGet {
                    path: auth_path(self.autologin.as_str(), rdv_path(&params).as_str()),
                }
            },
            DayPhase::CalendarList => DayAction::FetchAuthGet {
                path: auth_path(self.autologin.as_str(), custom_list_path().as_str()),
            },
            DayPhase::CalendarDay => {
                let cal = vstd::std_specs::vec::vec_index(&self.calendars, self.next_calendar);
                DayAction::FetchAuthGet {
                    path: auth_path(
                        self.autologin.as_str(),
                        custom_day_path(cal.id, self.date.as_str()).as_str(),
                    ),
                }
            },
            DayPhase::Done => DayAction::Finished,
        }
    }

    /// Feeds the base timetable body in.
    ///
    /// A body that is not a JSON array is the portal's known way of saying
    /// "no events": the day goes on with an empty timetable. A record with
    /// missing required fields fails the whole request.
    pub fn timetable_response(&mut self, body: &str) -> (r: Result<(), DayError>)
        requires
            old(self).wf(),
            old(self).phase is Timetable,
        ensures
            final(self).wf(),
            final(self).autologin@ == old(self).autologin@,
            final(self).email@ == old(self).email@,
            final(self).date@ == old(self).date@,
            final(self).semester == old(self).semester,
            final(self).calendars@ == old(self).calendars@,
            r matches Err(e) ==> e is Shape,
            r is Ok ==> {
                &&& final(self).next_rdv == 0
                &&& (final(self).pending@.len() > 0 ==> final(self).phase is Rdv)
                &&& (final(self).pending@.len() == 0 ==> final(self).phase is CalendarList)
            },
            r is Err ==> *final(self) == *old(self),
    {
        let parsed = json::parse(body);
        let arr = match &parsed {
            Some(v) => json::as_array(v),
            None => None,
        };
        let values = match arr {
            Some(a) => a,
            None => {
                self.phase = DayPhase::CalendarList;
                return Ok(());
            },
        };
        let mut raws: Vec<RawEvent> = Vec::new();
        let n = values.len();
        let mut i: usize = 0;
        while i < n
            invariant
                n == values@.len(),
            decreases n - i,
        {
            raws.push(raw_event_of_value(vstd::std_specs::vec::vec_index(values, i)));
            i = i + 1;
        }
        match collect_timetable(&raws, self.semester) {
            Ok(p) => {
                let has_rdv = p.1.len() > 0;
                self.events = p.0;
                self.pending = p.1;
                self.next_rdv = 0;
                self.phase = if has_rdv {
                    DayPhase::Rdv
                } else {
                    DayPhase::CalendarList
                };
                Ok(())
            },
            Err(e) => Err(DayError::Shape(e)),
        }
    }

    /// Feeds one appointment roster body in, for the next pending
    /// appointment.
    ///
    /// The resolved title and times overwrite the pending event's
    /// placeholder fields; everything else about it, and every other
    /// event, stays as it was. A roster that cannot be resolved — the
    /// caller matched by no slot — fails the whole request.
    pub fn rdv_response(&mut self, body: &str) -> (r: Result<(), DayError>)
        requires
            old(self).wf(),
            old(self).phase is Rdv,
        ensures
            final(self).wf(),
            final(self).autologin@ == old(self).autologin@,
            final(self).email@ == old(self).email@,
            final(self).date@ == old(self).date@,
            final(self).semester == old(self).semester,
            final(self).calendars@ == old(self).calendars@,
            final(self).pending@ == old(self).pending@,
            r is Ok ==> {
                &&& final(self).next_rdv == old(self).next_rdv + 1
                &&& final(self).events@.len() == old(self).events@.len()
                &&& (forall|k: int|
                    0 <= k < old(self).events@.len() && k != (old(self).pending@[old(self).next_rdv as int] as int) ==> final(self).events@[k] == old(self).events@[k])
                &&& {
                    let idx = old(self).pending@[old(self).next_rdv as int] as int;
                    let before = old(self).events@[idx]@;
                    let after = final(self).events@[idx]@;
                    &&& after.is_custom == before.is_custom
                    &&& after.is_rdv == before.is_rdv
                    &&& after.is_regular == before.is_regular
                    &&& after.year == before.year
                    &&& after.code_module == before.code_module
                    &&& after.code_instance == before.code_instance
                    &&& after.code_acti == before.code_acti
                    &&& after.code_event == before.code_event
                    &&& after.semester == before.semester
                    &&& after.module == before.module
                    &&& after.room == before.room
                    &&& after.teacher == before.teacher
                    &&& after.registration_status == before.registration_status
                }
                &&& (final(self).next_rdv < final(self).pending@.len() ==> final(self).phase
                    is Rdv)
                &&& (final(self).next_rdv == final(self).pending@.len() ==> final(self).phase
                    is CalendarList)
            },
            r is Err ==> *final(self) == *old(self),
    {
        let parsed = match json::parse(body) {
            Some(v) => v,
            None => {
                return Err(DayError::ParseFailed);
            },
        };
        let roster = match roster_of_value(&parsed) {
            Ok(ro) => ro,
            Err(e) => {
                return Err(DayError::Shape(e));
            },
        };
        let resolved: PlanningRdvResult = match resolve(&roster, self.email.as_str()) {
            Ok(res) => res,
            Err(e) => {
                return Err(DayError::Shape(e));
            },
        };
        let total = self.pending.len();
        let idx = self.pending[self.next_rdv];
        let before = vstd::std_specs::vec::vec_index(&self.events, idx);
        let updated = PlanningDayResult {
            is_custom: before.is_custom,
            is_rdv: before.is_rdv,
            is_regular: before.is_regular,
            year: before.year,
            code_module: before.code_module.clone(),
            code_instance: before.code_instance.clone(),
            code_acti: before.code_acti.clone(),
            code_event: before.code_event.clone(),
            semester: before.semester,
            custom_calendar_id: before.custom_calendar_id,
            custom_event_id: before.custom_event_id,
            title: resolved.title,
            module: before.module.clone(),
            room: before.room.clone(),
            teacher: before.teacher.clone(),
            time_start: resolved.time_start,
            time_end: resolved.time_end,
            registration_status: before.registration_status,
        };
        self.events[idx] = updated;
        self.next_rdv = self.next_rdv + 1;
        if self.next_rdv == total {
            self.phase = DayPhase::CalendarList;
        }
        Ok(())
    }

    /// Feeds the custom-calendar listing body in. A listing that does not
    /// parse as a list of calendars fails the request; a caller without
    /// calendars simply finishes the day.
    pub fn calendar_list_response(&mut self, body: &str) -> (r: Result<(), DayError>)
        requires
            old(self).wf(),
            old(self).phase is CalendarList,
        ensures
            final(self).wf(),
            final(self).autologin@ == old(self).autologin@,
            final(self).email@ == old(self).email@,
            final(self).date@ == old(self).date@,
            final(self).semester == old(self).semester,
            final(self).events@ == old(self).events@,
            final(self).pending@ == old(self).pending@,
            r matches Err(e) ==> e is ParseFailed,
            r is Ok ==> {
                &&& final(self).next_calendar == 0
                &&& (final(self).calendars@.len() > 0 ==> final(self).phase is CalendarDay)
                &&& (final(self).calendars@.len() == 0 ==> final(self).phase is Done)
            },
            r is Err ==> *final(self) == *old(self),
    {
        let parsed = match json::parse(body) {
            Some(v) => v,
            None => {
                return Err(DayError::ParseFailed);
            },
        };
        let values = match json::as_array(&parsed) {
            Some(a) => a,
            None => {
                return Err(DayError::ParseFailed);
            },
        };
        let calendars = match parse_calendar_list(values) {
            Ok(c) => c,
            Err(e) => {
                return Err(e);
            },
        };
        let has_calendars = calendars.len() > 0;
        self.calendars = calendars;
        self.next_calendar = 0;
        self.phase = if has_calendars {
            DayPhase::CalendarDay
        } else {
            DayPhase::Done
        };
        Ok(())
    }

    /// Feeds one custom calendar's day body in and appends its events,
    /// each tagged as custom with the owning calendar's name in place of
    /// the module. A body that is not a JSON array means an empty day for
    /// that calendar. The events already collected keep their places; the
    /// new ones are appended in the body's order.
    pub fn calendar_day_response(&mut self, body: &str) -> (r: Result<(), DayError>)
        requires
            old(self).wf(),
            old(self).phase is CalendarDay,
        ensures
            final(self).wf(),
            final(self).autologin@ == old(self).autologin@,
            final(self).email@ == old(self).email@,
            final(self).date@ == old(self).date@,
            final(self).semester == old(self).semester,
            final(self).calendars@ == old(self).calendars@,
            final(self).pending@ == old(self).pending@,
            r matches Err(e) ==> e is Shape,
            r is Ok ==> {
                &&& final(self).events@.len() >= old(self).events@.len()
                &&& final(self).events@.subrange(0, old(self).events@.len() as int) == old(self).events@
                &&& (forall|k: int|
                    old(self).events@.len() <= k < final(self).events@.len() ==> {
                        let ev = #[trigger] final(self).events@[k]@;
                        &&& ev.is_custom == true
                        &&& ev.is_rdv == false
                        &&& ev.is_regular == false
                        &&& ev.module == old(self).calendars@[old(self).next_calendar as int].name@
                    })
                &&& final(self).next_calendar == old(self).next_calendar + 1
                &&& (final(self).next_calendar < final(self).calendars@.len() ==> final(self).phase is CalendarDay)
                &&& (final(self).next_calendar == final(self).calendars@.len() ==> final(self).phase is Done)
            },
            r is Err ==> *final(self) == *old(self),
    {
        let parsed = json::parse(body);
        let arr = match &parsed {
            Some(v) => json::as_array(v),
            None => None,
        };
        let ghost old_events = self.events@;
        let cal_idx = self.next_calendar;
        match arr {
            None => {},
            Some(values) => {
                let cal = vstd::std_specs::vec::vec_index(&self.calendars, cal_idx);
                let mut appended = match collect_custom(values, cal) {
                    Ok(evs) => evs,
                    Err(e) => {
                        return Err(e);
                    },
                };
                let ghost appended_view = appended@;
                self.events.append(&mut appended);
                proof {
                    assert(self.events@.subrange(0, old_events.len() as int) =~= old_events);
                    assert forall|k: int|
                        old_events.len() <= k < self.events@.len() implies {
                        let ev = #[trigger] self.events@[k]@;
                        &&& ev.is_custom == true
                        &&& ev.is_rdv == false
                        &&& ev.is_regular == false
                        &&& ev.module == old(self).calendars@[cal_idx as int].name@
                        &&& crate::date::is_hh_mm(ev.time_start)
                        &&& crate::date::is_hh_mm(ev.time_end)
                    } by {
                        assert(self.events@[k] == appended_view[k - old_events.len()]);
                    }
                    assert forall|k: int| 0 <= k < old_events.len() implies self.events@[k]
                        == old_events[k] by {
                        assert(self.events@.subrange(0, old_events.len() as int)[k]
                            == self.events@[k]);
                    }
                }
            },
        }
        proof {
            assert(self.events@.subrange(0, old_events.len() as int) =~= old_events);
        }
        let total = self.calendars.len();
        self.next_calendar = cal_idx + 1;
        if self.next_calendar == total {
            self.phase = DayPhase::Done;
        }
        Ok(())
    }

    /// Hands the merged day list out once every phase is done.
    pub fn finish(self) -> (r: Vec<PlanningDayResult>)
        requires
            self.wf(),
            self.phase is Done,
        ensures
            r@ == self.events@,
    {
        self.events
    }
}

} // verus!
