//! Syntax validators for the caller-supplied values that address upstream
//! resources: the bearer credential ("autologin"), the composite module,
//! instance, activity and event codes, and the caller's email address.
//!
//! Each validator checks one fixed grammar and nothing else; no network
//! call is made here. The two composite validators check several fields in
//! a fixed order and name the first invalid one, so rejections are
//! deterministic and reproducible.

use vstd::prelude::*;

use crate::date::is_digit;

verus! {

pub open spec fn is_upper(c: char) -> bool {
    'A' <= c && c <= 'Z'
}

pub open spec fn is_lower_alnum(c: char) -> bool {
    ('a' <= c && c <= 'z') || is_digit(c)
}

/// The credential grammar: exactly forty lowercase-alphanumeric characters.
pub open spec fn valid_autologin(s: Seq<char>) -> bool {
    s.len() == 40 && forall|k: int| 0 <= k < s.len() ==> is_lower_alnum(s[k])
}

/// The module-code grammar: one uppercase letter, a dash, uppercase
/// letters, a dash, digits, with `j` the position of the second dash.
pub open spec fn module_split_at(s: Seq<char>, j: int) -> bool {
    &&& s.len() >= 3
    &&& is_upper(s[0])
    &&& s[1] == '-'
    &&& 2 <= j < s.len()
    &&& s[j] == '-'
    &&& forall|k: int| 2 <= k < j ==> is_upper(s[k])
    &&& forall|k: int| j < k < s.len() ==> is_digit(s[k])
}

pub open spec fn valid_module(s: Seq<char>) -> bool {
    exists|j: int| module_split_at(s, j)
}

/// The instance-code grammar: uppercase letters, a dash, digits, a dash,
/// one final digit, with `i` the position of the first dash.
pub open spec fn instance_split_at(s: Seq<char>, i: int) -> bool {
    &&& s.len() >= 3
    &&& 0 <= i < s.len() - 2
    &&& s[i] == '-'
    &&& s[s.len() - 2] == '-'
    &&& is_digit(s[s.len() - 1])
    &&& forall|k: int| 0 <= k < i ==> is_upper(s[k])
    &&& forall|k: int| i < k < s.len() - 2 ==> is_digit(s[k])
}

pub open spec fn valid_instance(s: Seq<char>) -> bool {
    exists|i: int| instance_split_at(s, i)
}

/// The activity-code grammar: the fixed `acti-` head followed by digits.
pub open spec fn valid_activity(s: Seq<char>) -> bool {
    &&& s.len() >= 5
    &&& s[0] == 'a'
    &&& s[1] == 'c'
    &&& s[2] == 't'
    &&& s[3] == 'i'
    &&& s[4] == '-'
    &&& forall|k: int| 5 <= k < s.len() ==> is_digit(s[k])
}

/// The event-code grammar: the fixed `event-` head followed by digits.
pub open spec fn valid_event(s: Seq<char>) -> bool {
    &&& s.len() >= 6
    &&& s[0] == 'e'
    &&& s[1] == 'v'
    &&& s[2] == 'e'
    &&& s[3] == 'n'
    &&& s[4] == 't'
    &&& s[5] == '-'
    &&& forall|k: int| 6 <= k < s.len() ==> is_digit(s[k])
}

pub open spec fn email_local_char(c: char) -> bool {
    is_upper(c) || is_lower_alnum(c) || c == '.' || c == '-'
}

/// The email grammar: a non-empty local part over letters, digits, dots and
/// dashes, then `@epitech`, one unconstrained separator position (any
/// character but a line break), then `eu`.
pub open spec fn valid_email(s: Seq<char>) -> bool {
    &&& s.len() >= 12
    &&& forall|k: int| 0 <= k < s.len() - 11 ==> email_local_char(s[k])
    &&& s[s.len() - 11] == '@'
    &&& s[s.len() - 10] == 'e'
    &&& s[s.len() - 9] == 'p'
    &&& s[s.len() - 8] == 'i'
    &&& s[s.len() - 7] == 't'
    &&& s[s.len() - 6] == 'e'
    &&& s[s.len() - 5] == 'c'
    &&& s[s.len() - 4] == 'h'
    &&& s[s.len() - 3] != '\n'
    &&& s[s.len() - 2] == 'e'
    &&& s[s.len() - 1] == 'u'
}

fn upper_at(s: &str, k: usize) -> (r: bool)
    requires
        k < s@.len(),
    ensures
        r == is_upper(s@[k as int]),
{
    let c = s.get_char(k);
    'A' <= c && c <= 'Z'
}

fn digit_char_at(s: &str, k: usize) -> (r: bool)
    requires
        k < s@.len(),
    ensures
        r == is_digit(s@[k as int]),
{
    let c = s.get_char(k);
    '0' <= c && c <= '9'
}

/// First position at or after `from` that does not hold an uppercase
/// letter.
fn scan_upper(s: &str, from: usize) -> (end: usize)
    requires
        from <= s@.len(),
    ensures
        from <= end <= s@.len(),
        forall|k: int| from <= k < end ==> is_upper(s@[k]),
        end < s@.len() ==> !is_upper(s@[end as int]),
{
    let n = s.unicode_len();
    let mut i: usize = from;
    let mut done = false;
    while !done
        invariant
            n == s@.len(),
            from <= i <= n,
            forall|k: int| from <= k < i ==> is_upper(s@[k]),
            done ==> i == n || !is_upper(s@[i as int]),
        decreases n - i + (if done {
            0int
        } else {
            1int
        }),
    {
        if i < n && upper_at(s, i) {
            i = i + 1;
        } else {
            done = true;
        }
    }
    i
}

/// First position at or after `from` that does not hold a digit.
fn scan_digit(s: &str, from: usize) -> (end: usize)
    requires
        from <= s@.len(),
    ensures
        from <= end <= s@.len(),
        forall|k: int| from <= k < end ==> is_digit(s@[k]),
        end < s@.len() ==> !is_digit(s@[end as int]),
{
    let n = s.unicode_len();
    let mut i: usize = from;
    let mut done = false;
    while !done
        invariant
            n == s@.len(),
            from <= i <= n,
            forall|k: int| from <= k < i ==> is_digit(s@[k]),
            done ==> i == n || !is_digit(s@[i as int]),
        decreases n - i + (if done {
            0int
        } else {
            1int
        }),
    {
        if i < n && digit_char_at(s, i) {
            i = i + 1;
        } else {
            done = true;
        }
    }
    i
}

/// Checks the credential grammar: forty lowercase-alphanumeric characters.
///
/// The result is always produced; the `Option` shape mirrors the public
/// contract of the caller-facing interface.
pub fn check(autologin: &str) -> (r: Option<bool>)
    ensures
        r is Some,
        r matches Some(b) ==> b == valid_autologin(autologin@),
{
    let n = autologin.unicode_len();
    if n != 40 {
        return Some(false);
    }
    let mut i: usize = 0;
    while i < n
        invariant
            n == autologin@.len(),
            i <= n,
            forall|k: int| 0 <= k < i ==> is_lower_alnum(autologin@[k]),
        decreases n - i,
    {
        let c = autologin.get_char(i);
        if !(('a' <= c && c <= 'z') || ('0' <= c && c <= '9')) {
            return Some(false);
        }
        i = i + 1;
    }
    Some(true)
}

/// Checks the module-code grammar.
pub fn module(module_code: &str) -> (r: Option<bool>)
    ensures
        r is Some,
        r matches Some(b) ==> b == valid_module(module_code@),
{
    let s = module_code;
    let n = s.unicode_len();
    if n < 3 {
        return Some(false);
    }
    if !upper_at(s, 0) {
        return Some(false);
    }
    if s.get_char(1) != '-' {
        return Some(false);
    }
    let u = scan_upper(s, 2);
    if u >= n || s.get_char(u) != '-' {
        proof {
            if valid_module(s@) {
                let j = choose|j: int| module_split_at(s@, j);
                if j < u {
                    assert(is_upper(s@[j]));
                } else if j > u {
                    assert(is_upper(s@[u as int]));
                }
                assert(false);
            }
        }
        return Some(false);
    }
    let d = scan_digit(s, u + 1);
    if d < n {
        proof {
            if valid_module(s@) {
                let j = choose|j: int| module_split_at(s@, j);
                if j < u {
                    assert(is_upper(s@[j]));
                } else if j > u {
                    assert(is_upper(s@[u as int]));
                }
                assert(j == u);
                assert(is_digit(s@[d as int]));
                assert(false);
            }
        }
        return Some(false);
    }
    proof {
        assert(module_split_at(s@, u as int));
    }
    Some(true)
}

/// Checks the instance-code grammar.
pub fn instance(instance_code: &str) -> (r: Option<bool>)
    ensures
        r is Some,
        r matches Some(b) ==> b == valid_instance(instance_code@),
{
    let s = instance_code;
    let n = s.unicode_len();
    if n < 3 {
        return Some(false);
    }
    if !digit_char_at(s, n - 1) {
        return Some(false);
    }
    if s.get_char(n - 2) != '-' {
        return Some(false);
    }
    let u = scan_upper(s, 0);
    if u >= n - 2 || s.get_char(u) != '-' {
        proof {
            if valid_instance(s@) {
                let i = choose|i: int| instance_split_at(s@, i);
                if i < u {
                    assert(is_upper(s@[i]));
                } else if i > u {
                    assert(is_upper(s@[u as int]));
                }
                assert(false);
            }
        }
        return Some(false);
    }
    let d = scan_digit(s, u + 1);
    if d < n - 2 {
        proof {
            if valid_instance(s@) {
                let i = choose|i: int| instance_split_at(s@, i);
                if i < u {
                    assert(is_upper(s@[i]));
                } else if i > u {
                    assert(is_upper(s@[u as int]));
                }
                assert(i == u);
                assert(is_digit(s@[d as int]));
                assert(false);
            }
        }
        return Some(false);
    }
    proof {
        if d > n - 2 {
            assert(is_digit(s@[n - 2]));
            assert(false);
        }
        assert(instance_split_at(s@, u as int));
    }
    Some(true)
}

/// Checks the activity-code grammar.
pub fn activity(activity_code: &str) -> (r: Option<bool>)
    ensures
        r is Some,
        r matches Some(b) ==> b == valid_activity(activity_code@),
{
    let s = activity_code;
    let n = s.unicode_len();
    if n < 5 {
        return Some(false);
    }
    if s.get_char(0) != 'a' || s.get_char(1) != 'c' || s.get_char(2) != 't' || s.get_char(3) != 'i'
        || s.get_char(4) != '-' {
        return Some(false);
    }
    let d = scan_digit(s, 5);
    if d < n {
        return Some(false);
    }
    Some(true)
}

/// Checks the event-code grammar.
pub fn event(event_code: &str) -> (r: Option<bool>)
    ensures
        r is Some,
        r matches Some(b) ==> b == valid_event(event_code@),
{
    let s = event_code;
    let n = s.unicode_len();
    if n < 6 {
        return Some(false);
    }
    if s.get_char(0) != 'e' || s.get_char(1) != 'v' || s.get_char(2) != 'e' || s.get_char(3) != 'n'
        || s.get_char(4) != 't' || s.get_char(5) != '-' {
        return Some(false);
    }
    let d = scan_digit(s, 6);
    if d < n {
        return Some(false);
    }
    Some(true)
}

/// Checks the email grammar.
pub fn email(email_addr: &str) -> (r: Option<bool>)
    ensures
        r is Some,
        r matches Some(b) ==> b == valid_email(email_addr@),
{
    let n = email_addr.unicode_len();
    if n < 12 {
        return Some(false);
    }
    let mut i: usize = 0;
    while i < n - 11
        invariant
            n == email_addr@.len(),
            12 <= n,
            i <= n - 11,
            forall|k: int| 0 <= k < i ==> email_local_char(email_addr@[k]),
        decreases n - 11 - i,
    {
        let c = email_addr.get_char(i);
        if !(('A' <= c && c <= 'Z') || ('a' <= c && c <= 'z') || ('0' <= c && c <= '9') || c == '.'
            || c == '-') {
            proof {
                assert(!email_local_char(email_addr@[i as int]));
            }
            return Some(false);
        }
        i = i + 1;
    }
    if email_addr.get_char(n - 11) != '@' || email_addr.get_char(n - 10) != 'e' || email_addr.get_char(n - 9) != 'p'
        || email_addr.get_char(n - 8) != 'i' || email_addr.get_char(n - 7) != 't' || email_addr.get_char(n - 6) != 'e'
        || email_addr.get_char(n - 5) != 'c' || email_addr.get_char(n - 4) != 'h' {
        return Some(false);
    }
    if email_addr.get_char(n - 3) == '\n' {
        return Some(false);
    }
    if email_addr.get_char(n - 2) != 'e' || email_addr.get_char(n - 1) != 'u' {
        return Some(false);
    }
    Some(true)
}

/// The fixed message naming the first invalid field of a planning event.
pub open spec fn planning_event_verdict(
    module_s: Seq<char>,
    instance_s: Seq<char>,
    activity_s: Seq<char>,
    event_s: Seq<char>,
) -> Option<Seq<char>> {
    if !valid_module(module_s) {
        Some("field `module` is invalid"@)
    } else if !valid_instance(instance_s) {
        Some("field `instance` is invalid"@)
    } else if !valid_activity(activity_s) {
        Some("field `activity` is invalid"@)
    } else if !valid_event(event_s) {
        Some("field `event` is invalid"@)
    } else {
        None
    }
}

/// Validates the four coordinates of a regular planning event, in the fixed
/// order, and names the first invalid field.
pub fn planning_event(module_s: &str, instance_s: &str, activity_s: &str, event_s: &str) -> (r:
    Option<String>)
    ensures
        r is None <==> planning_event_verdict(module_s@, instance_s@, activity_s@, event_s@)
            is None,
        r matches Some(m) ==> planning_event_verdict(
            module_s@,
            instance_s@,
            activity_s@,
            event_s@,
        ) == Some(m@),
{
    match module(module_s) {
        Some(true) => (),
        _ => {
            return Some(String::from_str("field `module` is invalid"));
        },
    }
    match instance(instance_s) {
        Some(true) => (),
        _ => {
            return Some(String::from_str("field `instance` is invalid"));
        },
    }
    match activity(activity_s) {
        Some(true) => (),
        _ => {
            return Some(String::from_str("field `activity` is invalid"));
        },
    }
    match event(event_s) {
        Some(true) => (),
        _ => {
            return Some(String::from_str("field `event` is invalid"));
        },
    }
    None
}

/// The fixed message naming the first invalid field of an appointment
/// lookup.
pub open spec fn planning_rdv_verdict(
    module_s: Seq<char>,
    instance_s: Seq<char>,
    activity_s: Seq<char>,
    email_s: Seq<char>,
) -> Option<Seq<char>> {
    if !valid_module(module_s) {
        Some("field `module` is invalid"@)
    } else if !valid_instance(instance_s) {
        Some("field `instance` is invalid"@)
    } else if !valid_activity(activity_s) {
        Some("field `activity` is invalid"@)
    } else if !valid_email(email_s) {
        Some("field `email` is invalid"@)
    } else {
        None
    }
}

/// Validates the coordinates of an appointment lookup, in the fixed order,
/// and names the first invalid field.
pub fn planning_rdv(module_s: &str, instance_s: &str, activity_s: &str, email_s: &str) -> (r:
    Option<String>)
    ensures
        r is None <==> planning_rdv_verdict(module_s@, instance_s@, activity_s@, email_s@) is None,
        r matches Some(m) ==> planning_rdv_verdict(module_s@, instance_s@, activity_s@, email_s@)
            == Some(m@),
{
    match module(module_s) {
        Some(true) => (),
        _ => {
            return Some(String::from_str("field `module` is invalid"));
        },
    }
    match instance(instance_s) {
        Some(true) => (),
        _ => {
            return Some(String::from_str("field `instance` is invalid"));
        },
    }
    match activity(activity_s) {
        Some(true) => (),
        _ => {
            return Some(String::from_str("field `activity` is invalid"));
        },
    }
    match email(email_s) {
        Some(true) => (),
        _ => {
            return Some(String::from_str("field `email` is invalid"));
        },
    }
    None
}

} // verus!
