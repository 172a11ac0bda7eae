//! Assembly of the caller's profile from the portal's profile record.
//!
//! Every field falls back to a fixed placeholder when the record lacks it;
//! a profile request never fails on shape. The weekly presence statistic
//! is a fractional number and is read by the unverified rim, not here.

use vstd::prelude::*;

use crate::data::User;
use crate::json;

verus! {

/// Reads the plain profile fields out of the portal's profile record,
/// substituting the fixed placeholders for absent members. Whatever the
/// record holds, a complete profile comes back.
pub fn user_of_value(v: &serde_json::Value) -> User {
    let name = match json::member(v, "title") {
        Some(x) => match json::as_string(x) {
            Some(s) => s,
            None => String::from_str("Ano Nymous"),
        },
        None => String::from_str("Ano Nymous"),
    };
    let email = match json::member(v, "login") {
        Some(x) => match json::as_string(x) {
            Some(s) => s,
            None => String::from_str("ano.nymous@epitech.eu"),
        },
        None => String::from_str("ano.nymous@epitech.eu"),
    };
    let city = match json::member(v, "groups") {
        Some(g) => match json::element(g, 0) {
            Some(first) => match json::member(first, "title") {
                Some(x) => match json::as_string(x) {
                    Some(s) => s,
                    None => String::from_str("Homeless"),
                },
                None => String::from_str("Homeless"),
            },
            None => String::from_str("Homeless"),
        },
        None => String::from_str("Homeless"),
    };
    let year = match json::member(v, "studentyear") {
        Some(x) => match json::as_u64(x) {
            Some(y) => y,
            None => 42,
        },
        None => 42,
    };
    let semester = match json::member(v, "semester") {
        Some(x) => match json::as_u64(x) {
            Some(s) => s,
            None => 42,
        },
        None => 42,
    };
    let credits = match json::member(v, "credits") {
        Some(x) => match json::as_u64(x) {
            Some(c) => c,
            None => 0,
        },
        None => 0,
    };
    let gpa = match json::member(v, "gpa") {
        Some(g) => match json::element(g, 0) {
            Some(first) => match json::member(first, "gpa") {
                Some(x) => match json::as_string(x) {
                    Some(s) => s,
                    None => String::from_str("0.00"),
                },
                None => String::from_str("0.00"),
            },
            None => String::from_str("0.00"),
        },
        None => String::from_str("0.00"),
    };
    User { name, email, city, year, semester, credits, gpa }
}

} // verus!
