//! Verified core of a schedule gateway in front of a university intranet
//! portal.
//!
//! The library validates caller-supplied credentials and identifiers, parses
//! and reformats the portal's date, time and room notations, normalizes raw
//! timetable records into one canonical event shape, resolves appointment
//! rosters, and orchestrates the per-day aggregation of the three upstream
//! event sources. All network traffic is left to the surrounding
//! application; the library only decides, formats and checks.

mod strutil;

pub mod check;
pub mod custom;
pub mod data;
pub mod date;
pub mod day;
pub mod event;
pub mod format;
pub mod gateway;
pub mod json;
pub mod rdv;
pub mod user;
