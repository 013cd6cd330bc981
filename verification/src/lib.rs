//! Request-handling rules of a student management service: what each
//! endpoint decides from the values it has read, stated and proved.

pub mod status;
pub mod text;
pub mod config;
pub mod ids;
pub mod auth;
pub mod dates;
pub mod dashboard;
pub mod report;
pub mod course;
pub mod student;
pub mod timetable;
pub mod assessment;
pub mod fee;
pub mod grade;
pub mod attendance;
pub mod profile;
pub mod notice;
