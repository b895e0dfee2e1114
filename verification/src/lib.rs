//! Verified core of the TheSchedule backend: timetable formatting, lernbuero
//! merging, free-room computation, password rules, link handling and the
//! decision logic of the HTTP endpoints.
pub mod api;
pub mod error;
pub mod governor;
pub mod models;
pub mod password;
pub mod text;
pub mod untis;
