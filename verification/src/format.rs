//! Display formatting of upstream values: room paths and event times.
//!
//! A raw room arrives as a slash-and-dash path such as
//! `Country/City/Location/Room-Name`. Formatting strips a leading
//! country-and-city pair when one is present, turns the remaining slashes
//! into arrows and the dashes into spaces. Times arrive as full timestamps
//! and are cut down to `HH:MM`.

use vstd::arithmetic::div_mod::{lemma_fundamental_div_mod, lemma_small_mod};
use vstd::prelude::*;

use crate::date::{
    check_timestamp, format_hh_mm, hh_mm_chars, timestamp_minute_of_day, two_digit_val,
    two_digit_value, valid_timestamp_chars,
};
use crate::strutil::push_char;

verus! {

pub open spec fn is_alpha(c: char) -> bool {
    ('a' <= c && c <= 'z') || ('A' <= c && c <= 'Z')
}

/// `i` and `j` bound a leading `Letters/Letters/` pair: the first and second
/// slash of the raw room, with only letters before and between them.
pub open spec fn room_prefix_at(s: Seq<char>, i: int, j: int) -> bool {
    &&& 1 <= i
    &&& i + 2 <= j < s.len()
    &&& s[i] == '/'
    &&& s[j] == '/'
    &&& forall|k: int| 0 <= k < i ==> is_alpha(s[k])
    &&& forall|k: int| i < k < j ==> is_alpha(s[k])
}

pub open spec fn has_room_prefix(s: Seq<char>) -> bool {
    exists|i: int, j: int| room_prefix_at(s, i, j)
}

/// The raw room with its country-and-city pair stripped, when one leads it.
pub open spec fn room_body(s: Seq<char>) -> Seq<char> {
    if has_room_prefix(s) {
        let (i, j) = choose|i: int, j: int| room_prefix_at(s, i, j);
        s.subrange(j + 1, s.len() as int)
    } else {
        s
    }
}

/// What one room character becomes in the display form.
pub open spec fn room_char(c: char) -> Seq<char> {
    if c == '/' {
        seq![' ', '→', ' ']
    } else if c == '-' {
        seq![' ']
    } else {
        seq![c]
    }
}

pub open spec fn room_replace(s: Seq<char>) -> Seq<char>
    decreases s.len(),
{
    if s.len() == 0 {
        Seq::empty()
    } else {
        room_replace(s.drop_last()) + room_char(s.last())
    }
}

/// The display form of a raw room path.
pub open spec fn room_chars(s: Seq<char>) -> Seq<char> {
    room_replace(room_body(s))
}

/// A leading pair is bounded by one slash pair only.
proof fn lemma_room_prefix_unique(s: Seq<char>, i1: int, j1: int, i2: int, j2: int)
    requires
        room_prefix_at(s, i1, j1),
        room_prefix_at(s, i2, j2),
    ensures
        i1 == i2,
        j1 == j2,
{
    assert(!is_alpha('/'));
    if i1 < i2 {
        assert(is_alpha(s[i1]));
    }
    if i2 < i1 {
        assert(is_alpha(s[i2]));
    }
    if j1 < j2 {
        assert(is_alpha(s[j1]));
    }
    if j2 < j1 {
        assert(is_alpha(s[j2]));
    }
}

/// Stripping the leading country-and-city pair by hand changes nothing:
/// the display room of the full path is the display room of what follows
/// the pair, whenever what follows does not itself start with such a pair.
pub proof fn lemma_room_prefix_irrelevant(s: Seq<char>, i: int, j: int)
    requires
        room_prefix_at(s, i, j),
        !has_room_prefix(s.subrange(j + 1, s.len() as int)),
    ensures
        room_chars(s) == room_chars(s.subrange(j + 1, s.len() as int)),
{
    assert(has_room_prefix(s));
    let (pi, pj) = choose|pi: int, pj: int| room_prefix_at(s, pi, pj);
    lemma_room_prefix_unique(s, pi, pj, i, j);
}

fn alpha_at(s: &str, k: usize) -> (r: bool)
    requires
        k < s@.len(),
    ensures
        r == is_alpha(s@[k as int]),
{
    let c = s.get_char(k);
    ('a' <= c && c <= 'z') || ('A' <= c && c <= 'Z')
}

/// First position at or after `from` that does not hold a letter.
fn scan_alpha(s: &str, from: usize) -> (end: usize)
    requires
        from <= s@.len(),
    ensures
        from <= end <= s@.len(),
        forall|k: int| from <= k < end ==> is_alpha(s@[k]),
        end < s@.len() ==> !is_alpha(s@[end as int]),
{
    let n = s.unicode_len();
    let mut i: usize = from;
    let mut done = false;
    while !done
        invariant
            n == s@.len(),
            from <= i <= n,
            forall|k: int| from <= k < i ==> is_alpha(s@[k]),
            done ==> i == n || !is_alpha(s@[i as int]),
        decreases n - i + (if done {
            0int
        } else {
            1int
        }),
    {
        if i < n && alpha_at(s, i) {
            i = i + 1;
        } else {
            done = true;
        }
    }
    i
}

/// Index just past the leading `Letters/Letters/` pair, or zero when the raw
/// room does not start with one.
fn room_body_start(s: &str) -> (start: usize)
    ensures
        start <= s@.len(),
        s@.subrange(start as int, s@.len() as int) == room_body(s@),
{
    let n = s.unicode_len();
    let i = scan_alpha(s, 0);
    if i < 1 || i >= n || s.get_char(i) != '/' {
        proof {
            if has_room_prefix(s@) {
                let (pi, pj) = choose|pi: int, pj: int| room_prefix_at(s@, pi, pj);
                assert(!is_alpha('/'));
                if pi < i {
                    assert(is_alpha(s@[pi]));
                } else if pi > i {
                    assert(i < s@.len());
                    assert(is_alpha(s@[i as int]));
                }
                assert(false);
            }
            assert(s@.subrange(0, s@.len() as int) =~= s@);
        }
        return 0;
    }
    let j = scan_alpha(s, i + 1);
    if j == i + 1 || j >= n || s.get_char(j) != '/' {
        proof {
            if has_room_prefix(s@) {
                let (pi, pj) = choose|pi: int, pj: int| room_prefix_at(s@, pi, pj);
                assert(!is_alpha('/'));
                if pi < i {
                    assert(is_alpha(s@[pi]));
                    assert(false);
                }
                if i < pi {
                    assert(is_alpha(s@[i as int]));
                    assert(false);
                }
                assert(pi == i);
                if j == i + 1 {
                    assert(is_alpha(s@[i + 1]));
                    assert(i + 1 < s@.len());
                    assert(false);
                } else if pj < j {
                    assert(is_alpha(s@[pj]));
                    assert(false);
                } else if pj == j {
                    assert(false);
                } else {
                    assert(is_alpha(s@[j as int]));
                    assert(false);
                }
            }
            assert(s@.subrange(0, s@.len() as int) =~= s@);
        }
        return 0;
    }
    proof {
        assert(room_prefix_at(s@, i as int, j as int));
        let (pi, pj) = choose|pi: int, pj: int| room_prefix_at(s@, pi, pj);
        lemma_room_prefix_unique(s@, pi, pj, i as int, j as int);
    }
    j + 1
}

/// Formats a raw room path for display.
///
/// The result is always produced; the `Option` shape mirrors the public
/// contract of the caller-facing interface.
pub fn room(raw_room: &str) -> (r: Option<String>)
    ensures
        r is Some,
        r matches Some(t) ==> t@ == room_chars(raw_room@),
{
    let n = raw_room.unicode_len();
    let start = room_body_start(raw_room);
    let ghost body = room_body(raw_room@);
    let mut out = String::new();
    let mut k: usize = start;
    while k < n
        invariant
            n == raw_room@.len(),
            start <= k <= n,
            body == raw_room@.subrange(start as int, n as int),
            out@ == room_replace(raw_room@.subrange(start as int, k as int)),
        decreases n - k,
    {
        let c = raw_room.get_char(k);
        let ghost before = raw_room@.subrange(start as int, k as int);
        let ghost after = raw_room@.subrange(start as int, k + 1);
        proof {
            assert(after.drop_last() =~= before);
            assert(after.last() == raw_room@[k as int]);
        }
        if c == '/' {
            push_char(&mut out, ' ');
            push_char(&mut out, '→');
            push_char(&mut out, ' ');
        } else if c == '-' {
            push_char(&mut out, ' ');
        } else {
            push_char(&mut out, c);
        }
        proof {
            assert(out@ =~= room_replace(before) + room_char(raw_room@[k as int]));
        }
        k = k + 1;
    }
    proof {
        assert(raw_room@.subrange(start as int, n as int) == body);
    }
    Some(out)
}

/// Cuts a full timestamp down to its `HH:MM` part.
///
/// Succeeds exactly on well-formed timestamps; the result is the five
/// characters naming hour and minute.
pub fn time(raw_date_time: &str) -> (r: Option<String>)
    ensures
        r is Some <==> valid_timestamp_chars(raw_date_time@),
        r matches Some(t) ==> t@ == raw_date_time@.subrange(11, 16),
{
    if !check_timestamp(raw_date_time) {
        return None;
    }
    let hm = raw_date_time.substring_char(11, 16);
    Some(hm.to_owned())
}

/// Cuts an appointment slot's start timestamp down to `HH:MM`.
pub fn rdv_time_start(raw_date: &str) -> (r: Option<String>)
    ensures
        r is Some <==> valid_timestamp_chars(raw_date@),
        r matches Some(t) ==> t@ == raw_date@.subrange(11, 16),
{
    time(raw_date)
}

/// Minute of the day at which a slot ends: its start plus its duration,
/// wrapped around midnight.
pub open spec fn end_minute(s: Seq<char>, duration_mins: int) -> int {
    (timestamp_minute_of_day(s) + duration_mins) % 1440
}

proof fn lemma_congruent_mod(a: int, b: int, k: int, m: int)
    requires
        m > 0,
        a == b + m * k,
        0 <= a < m,
    ensures
        a == b % m,
{
    lemma_fundamental_div_mod(b, m);
    let t = k + b / m;
    assert(a == b % m + m * t) by (nonlinear_arith)
        requires
            a == b + m * k,
            b == m * (b / m) + b % m,
            t == k + b / m,
    ;
    assert(0 <= b % m < m);
    assert(t == 0) by (nonlinear_arith)
        requires
            a == b % m + m * t,
            0 <= a < m,
            0 <= b % m < m,
    ;
}

/// Derives the `HH:MM` end time of an appointment slot from its start
/// timestamp and its duration in minutes.
///
/// Succeeds exactly when the start is a well-formed timestamp; the duration
/// is added as whole minutes, never glued on as text.
pub fn rdv_time_end(raw_start: &str, duration_mins: i64) -> (r: Option<String>)
    ensures
        r is Some <==> valid_timestamp_chars(raw_start@),
        r matches Some(t) ==> t@ == hh_mm_chars(end_minute(raw_start@, duration_mins as int)),
{
    if !check_timestamp(raw_start) {
        return None;
    }
    let ghost time = raw_start@.subrange(11, 19);
    proof {
        assert(two_digit_val(time, 0) == two_digit_val(raw_start@, 11));
        assert(two_digit_val(time, 3) == two_digit_val(raw_start@, 14));
    }
    let hour = two_digit_value(raw_start, 11);
    let minute = two_digit_value(raw_start, 14);
    let base = hour * 60 + minute;
    let ghost dur = duration_mins as int;
    let mut mod_part: i64 = 0;
    let ghost mut k: int = 0;
    if duration_mins >= 0 {
        mod_part = duration_mins % 1440;
        proof {
            k = dur / 1440;
            lemma_fundamental_div_mod(dur, 1440);
        }
    } else {
        let e = -(duration_mins + 1);
        let re = e % 1440;
        mod_part = 1439 - re;
        proof {
            k = -(e as int / 1440) - 1;
            lemma_fundamental_div_mod(e as int, 1440);
        }
    }
    proof {
        assert(0 <= mod_part < 1440);
        assert(dur == mod_part + 1440 * k);
    }
    let total = base + mod_part as u32;
    let end = if total >= 1440 {
        total - 1440
    } else {
        total
    };
    proof {
        let b = timestamp_minute_of_day(raw_start@) + dur;
        assert(base == timestamp_minute_of_day(raw_start@));
        if total >= 1440 {
            assert(end as int == b + 1440 * (-(k + 1)));
            lemma_congruent_mod(end as int, b, -(k + 1), 1440);
        } else {
            assert(end as int == b + 1440 * (-k));
            lemma_congruent_mod(end as int, b, -k, 1440);
        }
    }
    Some(format_hh_mm(end))
}

} // verus!
