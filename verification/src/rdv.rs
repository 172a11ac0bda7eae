//! Resolution of the caller's slot inside an appointment roster.
//!
//! A roster names the appointment (the first listed event's title) and
//! holds a two-level slot structure: an outer array of days, each with an
//! inner array of time windows. Every inner slot is examined in order; a
//! slot belongs to the caller when its group master's login is the
//! caller's email, or, failing that, when one of its members' logins is.
//! The scan is exhaustive — it continues through all slots even after a
//! match, so the last matching slot wins. A caller with no slot anywhere is
//! an error: by the time this resolver runs, the caller is already known to
//! be registered for some appointment.

use vstd::prelude::*;

use crate::data::{PlanningRdvResult, ShapeError};
use crate::date::{hh_mm_chars, valid_timestamp_chars};
use crate::format::{end_minute, rdv_time_end, rdv_time_start};
use crate::json;
use crate::strutil::str_eq;

verus! {

/// One appointment slot, reduced to the plain fields the scan reads.
///
/// `members` is absent when the roster lists none in array shape; that is
/// only an error if the scan ever needs to look at them.
#[derive(Debug)]
pub struct RdvSlot {
    pub date: Option<String>,
    pub duration: Option<i64>,
    pub master_login: Option<String>,
    pub members: Option<Vec<Option<String>>>,
}

/// A fetched appointment roster in plain shape.
#[derive(Debug)]
pub struct RdvRoster {
    pub title: String,
    pub slots: Vec<Vec<RdvSlot>>,
}

/// A roster login matches the caller; an absent login is treated as the
/// fixed text `null`.
pub open spec fn login_matches(login: Option<String>, email: Seq<char>) -> bool {
    match login {
        Some(l) => l@ == email,
        None => "null"@ == email,
    }
}

/// The `(start, end)` display times of one matched slot, or the error its
/// fields force.
pub open spec fn slot_times(slot: RdvSlot) -> Result<(Seq<char>, Seq<char>), ShapeError> {
    if !(slot.date matches Some(d) && valid_timestamp_chars(d@)) {
        Err(ShapeError::RdvStartExtract)
    } else if slot.duration is None {
        Err(ShapeError::RdvEndExtract)
    } else {
        Ok(
            (
                slot.date->0@.subrange(11, 16),
                hh_mm_chars(end_minute(slot.date->0@, slot.duration->0 as int)),
            ),
        )
    }
}

/// Folds one slot's member list over the running times.
pub open spec fn scan_members(
    members: Seq<Option<String>>,
    slot: RdvSlot,
    email: Seq<char>,
    cur: (Seq<char>, Seq<char>),
) -> Result<(Seq<char>, Seq<char>), ShapeError>
    decreases members.len(),
{
    if members.len() == 0 {
        Ok(cur)
    } else {
        match scan_members(members.drop_last(), slot, email, cur) {
            Err(e) => Err(e),
            Ok(st) => if login_matches(members.last(), email) {
                slot_times(slot)
            } else {
                Ok(st)
            },
        }
    }
}

/// Folds one slot over the running times: the master first, the members
/// only when the master is somebody else.
pub open spec fn scan_slot(slot: RdvSlot, email: Seq<char>, cur: (Seq<char>, Seq<char>)) -> Result<
    (Seq<char>, Seq<char>),
    ShapeError,
> {
    if login_matches(slot.master_login, email) {
        slot_times(slot)
    } else {
        match slot.members {
            None => Err(ShapeError::MembersNotArray),
            Some(ms) => scan_members(ms@, slot, email, cur),
        }
    }
}

/// Folds one day's inner slots over the running times, in order.
pub open spec fn scan_inner(
    slots: Seq<RdvSlot>,
    email: Seq<char>,
    cur: (Seq<char>, Seq<char>),
) -> Result<(Seq<char>, Seq<char>), ShapeError>
    decreases slots.len(),
{
    if slots.len() == 0 {
        Ok(cur)
    } else {
        match scan_inner(slots.drop_last(), email, cur) {
            Err(e) => Err(e),
            Ok(st) => scan_slot(slots.last(), email, st),
        }
    }
}

/// Folds the outer day list over the running times, in order.
pub open spec fn scan_outer(
    days: Seq<Vec<RdvSlot>>,
    email: Seq<char>,
    cur: (Seq<char>, Seq<char>),
) -> Result<(Seq<char>, Seq<char>), ShapeError>
    decreases days.len(),
{
    if days.len() == 0 {
        Ok(cur)
    } else {
        match scan_outer(days.drop_last(), email, cur) {
            Err(e) => Err(e),
            Ok(st) => scan_inner(days.last()@, email, st),
        }
    }
}

/// What resolving a roster for a caller yields: the appointment's title and
/// its start and end display times, or the first error of the scan, with an
/// exhausted scan that matched nowhere being an error of its own.
pub open spec fn resolve_spec(roster: RdvRoster, email: Seq<char>) -> Result<
    (Seq<char>, Seq<char>, Seq<char>),
    ShapeError,
> {
    match scan_outer(roster.slots@, email, (Seq::empty(), Seq::empty())) {
        Err(e) => Err(e),
        Ok(st) => if st.0.len() == 0 || st.1.len() == 0 {
            Err(ShapeError::RdvLoginNotFound)
        } else {
            Ok((roster.title@, st.0, st.1))
        },
    }
}

proof fn lemma_scan_members_err_persists(
    members: Seq<Option<String>>,
    slot: RdvSlot,
    email: Seq<char>,
    cur: (Seq<char>, Seq<char>),
    i: int,
)
    requires
        0 <= i <= members.len(),
        scan_members(members.subrange(0, i), slot, email, cur) is Err,
    ensures
        scan_members(members, slot, email, cur) == scan_members(
            members.subrange(0, i),
            slot,
            email,
            cur,
        ),
    decreases members.len() - i,
{
    if i == members.len() {
        assert(members.subrange(0, i) =~= members);
    } else {
        assert(members.subrange(0, i + 1).drop_last() =~= members.subrange(0, i));
        assert(members.subrange(0, i + 1).last() == members[i]);
        lemma_scan_members_err_persists(members, slot, email, cur, i + 1);
    }
}

proof fn lemma_scan_inner_err_persists(
    slots: Seq<RdvSlot>,
    email: Seq<char>,
    cur: (Seq<char>, Seq<char>),
    i: int,
)
    requires
        0 <= i <= slots.len(),
        scan_inner(slots.subrange(0, i), email, cur) is Err,
    ensures
        scan_inner(slots, email, cur) == scan_inner(slots.subrange(0, i), email, cur),
    decreases slots.len() - i,
{
    if i == slots.len() {
        assert(slots.subrange(0, i) =~= slots);
    } else {
        assert(slots.subrange(0, i + 1).drop_last() =~= slots.subrange(0, i));
        assert(slots.subrange(0, i + 1).last() == slots[i]);
        lemma_scan_inner_err_persists(slots, email, cur, i + 1);
    }
}

proof fn lemma_scan_outer_err_persists(
    days: Seq<Vec<RdvSlot>>,
    email: Seq<char>,
    cur: (Seq<char>, Seq<char>),
    i: int,
)
    requires
        0 <= i <= days.len(),
        scan_outer(days.subrange(0, i), email, cur) is Err,
    ensures
        scan_outer(days, email, cur) == scan_outer(days.subrange(0, i), email, cur),
    decreases days.len() - i,
{
    if i == days.len() {
        assert(days.subrange(0, i) =~= days);
    } else {
        assert(days.subrange(0, i + 1).drop_last() =~= days.subrange(0, i));
        assert(days.subrange(0, i + 1).last() == days[i]);
        lemma_scan_outer_err_persists(days, email, cur, i + 1);
    }
}

fn slot_times_exec(slot: &RdvSlot) -> (r: Result<(String, String), ShapeError>)
    ensures
        r matches Ok(ts) ==> slot_times(*slot) == Ok::<_, ShapeError>((ts.0@, ts.1@)),
        r matches Ok(ts) ==> crate::date::is_hh_mm(ts.0@) && crate::date::is_hh_mm(ts.1@),
        r matches Err(e) ==> slot_times(*slot) == Err::<(Seq<char>, Seq<char>), _>(e),
{
    let start = match &slot.date {
        Some(d) => match rdv_time_start(d.as_str()) {
            Some(t) => t,
            None => {
                return Err(ShapeError::RdvStartExtract);
            },
        },
        None => {
            return Err(ShapeError::RdvStartExtract);
        },
    };
    let end = match &slot.date {
        Some(d) => match &slot.duration {
            Some(mins) => match rdv_time_end(d.as_str(), *mins) {
                Some(t) => t,
                None => {
                    proof {
                        assert(false);
                    }
                    return Err(ShapeError::RdvEndExtract);
                },
            },
            None => {
                return Err(ShapeError::RdvEndExtract);
            },
        },
        None => {
            proof {
                assert(false);
            }
            return Err(ShapeError::RdvStartExtract);
        },
    };
    proof {
        match &slot.date {
            Some(d) => {
                crate::date::lemma_timestamp_hh_mm(d@);
                crate::date::lemma_hh_mm_chars_shape(end_minute(d@, slot.duration->0 as int));
            },
            None => {
                assert(false);
            },
        }
    }
    Ok((start, end))
}

fn login_matches_exec(login: &Option<String>, email: &str) -> (r: bool)
    ensures
        r == login_matches(*login, email@),
{
    match login {
        Some(l) => str_eq(l.as_str(), email),
        None => str_eq("null", email),
    }
}

/// Resolves the caller's slot in a fetched roster.
///
/// Succeeds exactly when the exhaustive scan finds at least one matching
/// slot and every matching slot carries a well-formed start and a duration;
/// the last match wins. The title is the roster's appointment title.
pub fn resolve(roster: &RdvRoster, email: &str) -> (r: Result<PlanningRdvResult, ShapeError>)
    ensures
        r is Ok <==> resolve_spec(*roster, email@) is Ok,
        r matches Ok(res) ==> resolve_spec(*roster, email@) == Ok::<_, ShapeError>(
            (res.title@, res.time_start@, res.time_end@),
        ),
        r matches Ok(res) ==> crate::date::is_hh_mm(res.time_start@) && crate::date::is_hh_mm(
            res.time_end@,
        ),
        r matches Err(e) ==> resolve_spec(*roster, email@) == Err::<
            (Seq<char>, Seq<char>, Seq<char>),
            _,
        >(e),
{
    let ghost all_days = roster.slots@;
    let mut time_start = String::new();
    let mut time_end = String::new();
    let n = roster.slots.len();
    let mut i: usize = 0;
    while i < n
        invariant
            n == all_days.len(),
            all_days == roster.slots@,
            i <= n,
            scan_outer(all_days.subrange(0, i as int), email@, (Seq::empty(), Seq::empty()))
                == Ok::<_, ShapeError>((time_start@, time_end@)),
            (time_start@.len() == 0 && time_end@.len() == 0) || (crate::date::is_hh_mm(
                time_start@,
            ) && crate::date::is_hh_mm(time_end@)),
        decreases n - i,
    {
        let day = &roster.slots[i];
        let ghost day_slots = day@;
        let m = day.len();
        let mut j: usize = 0;
        while j < m
            invariant
                n == all_days.len(),
                all_days == roster.slots@,
                i < n,
                day_slots == all_days[i as int]@,
                m == day_slots.len(),
                j <= m,
                scan_outer(all_days.subrange(0, i as int), email@, (Seq::empty(), Seq::empty()))
                    is Ok,
                scan_inner(
                    day_slots.subrange(0, j as int),
                    email@,
                    scan_outer(
                        all_days.subrange(0, i as int),
                        email@,
                        (Seq::empty(), Seq::empty()),
                    )->Ok_0,
                ) == Ok::<_, ShapeError>((time_start@, time_end@)),
                (time_start@.len() == 0 && time_end@.len() == 0) || (crate::date::is_hh_mm(
                    time_start@,
                ) && crate::date::is_hh_mm(time_end@)),
            decreases m - j,
        {
            let slot = &roster.slots[i][j];
            let ghost st_before = (time_start@, time_end@);
            let ghost entry = scan_outer(
                all_days.subrange(0, i as int),
                email@,
                (Seq::empty(), Seq::empty()),
            )->Ok_0;
            proof {
                assert(day_slots.subrange(0, j + 1).drop_last() =~= day_slots.subrange(
                    0,
                    j as int,
                ));
                assert(day_slots.subrange(0, j + 1).last() == day_slots[j as int]);
            }
            if login_matches_exec(&slot.master_login, email) {
                match slot_times_exec(slot) {
                    Ok(ts) => {
                        time_start = ts.0;
                        time_end = ts.1;
                    },
                    Err(e) => {
                        proof {
                            lemma_scan_inner_err_persists(day_slots, email@, entry, j + 1);
                            assert(all_days.subrange(0, i + 1).drop_last() =~= all_days.subrange(
                                0,
                                i as int,
                            ));
                            assert(all_days.subrange(0, i + 1).last() == all_days[i as int]);
                            lemma_scan_outer_err_persists(
                                all_days,
                                email@,
                                (Seq::empty(), Seq::empty()),
                                i + 1,
                            );
                        }
                        return Err(e);
                    },
                }
            } else {
                let members = match &slot.members {
                    Some(ms) => ms,
                    None => {
                        proof {
                            lemma_scan_inner_err_persists(day_slots, email@, entry, j + 1);
                            assert(all_days.subrange(0, i + 1).drop_last() =~= all_days.subrange(
                                0,
                                i as int,
                            ));
                            assert(all_days.subrange(0, i + 1).last() == all_days[i as int]);
                            lemma_scan_outer_err_persists(
                                all_days,
                                email@,
                                (Seq::empty(), Seq::empty()),
                                i + 1,
                            );
                        }
                        return Err(ShapeError::MembersNotArray);
                    },
                };
                let ghost member_logins = members@;
                let mc = members.len();
                let mut k: usize = 0;
                while k < mc
                    invariant
                        n == all_days.len(),
                        all_days == roster.slots@,
                        i < n,
                        day_slots == all_days[i as int]@,
                        m == day_slots.len(),
                        j < m,
                        day_slots[j as int].members matches Some(ms) && ms@ == member_logins,
                        day_slots[j as int] == *slot,
                        !login_matches(slot.master_login, email@),
                        members@ == member_logins,
                        mc == member_logins.len(),
                        k <= mc,
                        entry == scan_outer(
                            all_days.subrange(0, i as int),
                            email@,
                            (Seq::empty(), Seq::empty()),
                        )->Ok_0,
                        scan_outer(
                            all_days.subrange(0, i as int),
                            email@,
                            (Seq::empty(), Seq::empty()),
                        ) is Ok,
                        scan_inner(day_slots.subrange(0, j as int), email@, entry) is Ok,
                        st_before == scan_inner(
                            day_slots.subrange(0, j as int),
                            email@,
                            entry,
                        )->Ok_0,
                        scan_members(member_logins.subrange(0, k as int), *slot, email@, st_before)
                            == Ok::<_, ShapeError>((time_start@, time_end@)),
                        (time_start@.len() == 0 && time_end@.len() == 0) || (crate::date::is_hh_mm(
                            time_start@,
                        ) && crate::date::is_hh_mm(time_end@)),
                    decreases mc - k,
                {
                    proof {
                        assert(member_logins.subrange(0, k + 1).drop_last()
                            =~= member_logins.subrange(0, k as int));
                        assert(member_logins.subrange(0, k + 1).last()
                            == member_logins[k as int]);
                    }
                    if login_matches_exec(&members[k], email) {
                        match slot_times_exec(slot) {
                            Ok(ts) => {
                                time_start = ts.0;
                                time_end = ts.1;
                            },
                            Err(e) => {
                                proof {
                                    lemma_scan_members_err_persists(
                                        member_logins,
                                        *slot,
                                        email@,
                                        st_before,
                                        k + 1,
                                    );
                                    assert(scan_slot(*slot, email@, st_before) == Err::<
                                        (Seq<char>, Seq<char>),
                                        _,
                                    >(e));
                                    assert(day_slots.subrange(0, j + 1).drop_last()
                                        =~= day_slots.subrange(0, j as int));
                                    assert(day_slots.subrange(0, j + 1).last() == day_slots[j as int]);
                                    lemma_scan_inner_err_persists(day_slots, email@, entry, j + 1);
                                    assert(all_days.subrange(0, i + 1).drop_last()
                                        =~= all_days.subrange(0, i as int));
                                    assert(all_days.subrange(0, i + 1).last()
                                        == all_days[i as int]);
                                    lemma_scan_outer_err_persists(
                                        all_days,
                                        email@,
                                        (Seq::empty(), Seq::empty()),
                                        i + 1,
                                    );
                                }
                                return Err(e);
                            },
                        }
                    }
                    k = k + 1;
                }
                proof {
                    assert(member_logins.subrange(0, mc as int) =~= member_logins);
                }
            }
            j = j + 1;
        }
        proof {
            assert(day_slots.subrange(0, m as int) =~= day_slots);
            assert(all_days.subrange(0, i + 1).drop_last() =~= all_days.subrange(0, i as int));
            assert(all_days.subrange(0, i + 1).last() == all_days[i as int]);
        }
        i = i + 1;
    }
    proof {
        assert(all_days.subrange(0, n as int) =~= all_days);
    }
    if time_start.unicode_len() == 0 || time_end.unicode_len() == 0 {
        return Err(ShapeError::RdvLoginNotFound);
    }
    Ok(PlanningRdvResult { title: roster.title.clone(), time_start, time_end })
}

/// Reads an appointment roster out of an upstream JSON value: the first
/// event's title and the two-level slot structure, with per-slot fields
/// carried over as plain values. The structure itself must be present; the
/// per-slot fields may be absent, and the scan decides what that means.
pub fn roster_of_value(v: &serde_json::Value) -> (r: Result<RdvRoster, ShapeError>) {
    let title = match json::member(v, "events") {
        Some(evs) => match json::element(evs, 0) {
            Some(first) => match json::member(first, "title") {
                Some(t) => match json::as_string(t) {
                    Some(s) => s,
                    None => {
                        return Err(ShapeError::RdvTitleMissing);
                    },
                },
                None => {
                    return Err(ShapeError::RdvTitleMissing);
                },
            },
            None => {
                return Err(ShapeError::RdvTitleMissing);
            },
        },
        None => {
            return Err(ShapeError::RdvTitleMissing);
        },
    };
    let days = match json::member(v, "slots") {
        Some(s) => match json::as_array(s) {
            Some(a) => a,
            None => {
                return Err(ShapeError::SlotsNotArray);
            },
        },
        None => {
            return Err(ShapeError::SlotsNotArray);
        },
    };
    let mut slots: Vec<Vec<RdvSlot>> = Vec::new();
    let dn = days.len();
    let mut i: usize = 0;
    while i < dn
        invariant
            dn == days@.len(),
        decreases dn - i,
    {
        let day = vstd::std_specs::vec::vec_index(days, i);
        let inner = match json::member(day, "slots") {
            Some(s) => match json::as_array(s) {
                Some(a) => a,
                None => {
                    return Err(ShapeError::InnerSlotsNotArray);
                },
            },
            None => {
                return Err(ShapeError::InnerSlotsNotArray);
            },
        };
        let mut day_slots: Vec<RdvSlot> = Vec::new();
        let sn = inner.len();
        let mut j: usize = 0;
        while j < sn
            invariant
                sn == inner@.len(),
            decreases sn - j,
        {
            let s = vstd::std_specs::vec::vec_index(inner, j);
            let date = match json::member(s, "date") {
                Some(x) => json::as_string(x),
                None => None,
            };
            let duration = match json::member(s, "duration") {
                Some(x) => json::as_i64(x),
                None => None,
            };
            let master_login = match json::member(s, "master") {
                Some(mv) => match json::member(mv, "login") {
                    Some(x) => json::as_string(x),
                    None => None,
                },
                None => None,
            };
            let members = match json::member(s, "members") {
                Some(mv) => match json::as_array(mv) {
                    Some(arr) => {
                        let mut logins: Vec<Option<String>> = Vec::new();
                        let mn = arr.len();
                        let mut k: usize = 0;
                        while k < mn
                            invariant
                                mn == arr@.len(),
                            decreases mn - k,
                        {
                            let mem = vstd::std_specs::vec::vec_index(arr, k);
                            let login = match json::member(mem, "login") {
                                Some(x) => json::as_string(x),
                                None => None,
                            };
                            logins.push(login);
                            k = k + 1;
                        }
                        Some(logins)
                    },
                    None => None,
                },
                None => None,
            };
            day_slots.push(RdvSlot { date, duration, master_login, members });
            j = j + 1;
        }
        slots.push(day_slots);
        i = i + 1;
    }
    Ok(RdvRoster { title, slots })
}

} // verus!
