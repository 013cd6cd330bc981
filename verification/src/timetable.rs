use vstd::prelude::*;

use crate::course::{updated, updated_opt};
use crate::dates::Date;
use crate::text::{contains_pattern, like_pattern};

verus! {

/// A time of day: the seconds since midnight and the nanoseconds past that
/// second.
#[derive(Debug, Clone, Copy, PartialEq, Eq, Structural)]
pub struct TimeOfDay {
    pub seconds_from_midnight: u32,
    pub nanosecond: u32,
}

/// A weekly class in the timetable.
#[derive(Debug, Clone)]
pub struct Timetable {
    pub id: u128,
    pub course_code: String,
    pub day_of_week: String,
    pub start_time: TimeOfDay,
    pub end_time: TimeOfDay,
    pub room: Option<String>,
    pub lecturer: Option<String>,
    pub effective_date: Option<Date>,
}

/// The fields of a new timetable entry.
#[derive(Debug, Clone)]
pub struct CreateTimetableRequest {
    pub course_code: String,
    pub day_of_week: String,
    pub start_time: TimeOfDay,
    pub end_time: TimeOfDay,
    pub room: Option<String>,
    pub lecturer: Option<String>,
    pub effective_date: Option<Date>,
}

/// The fields of a timetable entry to change; those left `None` keep their
/// value.
#[derive(Debug, Clone)]
pub struct UpdateTimetableRequest {
    pub course_code: Option<String>,
    pub day_of_week: Option<String>,
    pub start_time: Option<TimeOfDay>,
    pub end_time: Option<TimeOfDay>,
    pub room: Option<String>,
    pub lecturer: Option<String>,
    pub effective_date: Option<Date>,
}

/// A search in the timetable.
#[derive(Debug, Clone)]
pub struct GetTimetableQuery {
    pub course_code: Option<String>,
    pub day_of_week: Option<String>,
    pub lecturer: Option<String>,
}

/// Which timetable entries a search selects.
#[derive(Debug, Clone)]
pub enum TimetableFilter {
    /// Entries of this course, by day and start.
    CourseIs(String),
    /// Entries on this day, case aside, by start.
    DayIs(String),
    /// Entries whose lecturer matches this pattern, case aside.
    LecturerLike(String),
    /// Every entry, by day and start.
    All,
}

impl UpdateTimetableRequest {
    /// The entry after this change.
    pub open spec fn applied_to(self, t: Timetable) -> Timetable {
        Timetable {
            id: t.id,
            course_code: updated(self.course_code, t.course_code),
            day_of_week: updated(self.day_of_week, t.day_of_week),
            start_time: updated(self.start_time, t.start_time),
            end_time: updated(self.end_time, t.end_time),
            room: updated_opt(self.room, t.room),
            lecturer: updated_opt(self.lecturer, t.lecturer),
            effective_date: updated_opt(self.effective_date, t.effective_date),
        }
    }

    /// A change that changes nothing.
    pub open spec fn is_empty(self) -> bool {
        self.course_code is None && self.day_of_week is None && self.start_time is None
            && self.end_time is None && self.room is None && self.lecturer is None
            && self.effective_date is None
    }
}

impl Timetable {
    /// The entry after `req`: each field given replaces the current one.
    pub fn apply_update(self, req: UpdateTimetableRequest) -> (t: Timetable)
        ensures
            t == req.applied_to(self),
            t.id == self.id,
            req.course_code matches Some(v) ==> t.course_code == v,
            req.course_code is None ==> t.course_code == self.course_code,
            req.day_of_week matches Some(v) ==> t.day_of_week == v,
            req.day_of_week is None ==> t.day_of_week == self.day_of_week,
            req.start_time matches Some(v) ==> t.start_time == v,
            req.start_time is None ==> t.start_time == self.start_time,
            req.end_time matches Some(v) ==> t.end_time == v,
            req.end_time is None ==> t.end_time == self.end_time,
            req.room matches Some(v) ==> t.room == Some(v),
            req.room is None ==> t.room == self.room,
            req.lecturer matches Some(v) ==> t.lecturer == Some(v),
            req.lecturer is None ==> t.lecturer == self.lecturer,
            req.effective_date matches Some(v) ==> t.effective_date == Some(v),
            req.effective_date is None ==> t.effective_date == self.effective_date,
    {
        Timetable {
            id: self.id,
            course_code: match req.course_code {
                Some(v) => v,
                None => self.course_code,
            },
            day_of_week: match req.day_of_week {
                Some(v) => v,
                None => self.day_of_week,
            },
            start_time: match req.start_time {
                Some(v) => v,
                None => self.start_time,
            },
            end_time: match req.end_time {
                Some(v) => v,
                None => self.end_time,
            },
            room: match req.room {
                Some(v) => Some(v),
                None => self.room,
            },
            lecturer: match req.lecturer {
                Some(v) => Some(v),
                None => self.lecturer,
            },
            effective_date: match req.effective_date {
                Some(v) => Some(v),
                None => self.effective_date,
            },
        }
    }
}

/// A change that gives no field leaves the entry as it is; a change made
/// twice does no more than once.
pub proof fn lemma_timetable_update_laws(t: Timetable, req: UpdateTimetableRequest)
    ensures
        req.is_empty() ==> req.applied_to(t) == t,
        req.applied_to(req.applied_to(t)) == req.applied_to(t),
{
}

/// Each field that a change gives replaces the entry's current value, and
/// each field it leaves out keeps its value; the UUID never changes.
pub proof fn lemma_timetable_update_replaces_given_fields(t: Timetable, req: UpdateTimetableRequest)
    ensures
        req.applied_to(t).id == t.id,
        req.course_code matches Some(v) ==> req.applied_to(t).course_code == v,
        req.course_code is None ==> req.applied_to(t).course_code == t.course_code,
        req.day_of_week matches Some(v) ==> req.applied_to(t).day_of_week == v,
        req.day_of_week is None ==> req.applied_to(t).day_of_week == t.day_of_week,
        req.start_time matches Some(v) ==> req.applied_to(t).start_time == v,
        req.start_time is None ==> req.applied_to(t).start_time == t.start_time,
        req.end_time matches Some(v) ==> req.applied_to(t).end_time == v,
        req.end_time is None ==> req.applied_to(t).end_time == t.end_time,
        req.room matches Some(v) ==> req.applied_to(t).room == Some(v),
        req.room is None ==> req.applied_to(t).room == t.room,
        req.lecturer matches Some(v) ==> req.applied_to(t).lecturer == Some(v),
        req.lecturer is None ==> req.applied_to(t).lecturer == t.lecturer,
        req.effective_date matches Some(v) ==> req.applied_to(t).effective_date == Some(v),
        req.effective_date is None ==> req.applied_to(t).effective_date == t.effective_date,
{
}

impl GetTimetableQuery {
    /// The selection of a search: by course where one is given, else by day,
    /// else by part of the lecturer's name, else every entry.
    pub fn filter(self) -> (f: TimetableFilter)
        ensures
            match (self.course_code, self.day_of_week, self.lecturer) {
                (Some(c), _, _) => f == TimetableFilter::CourseIs(c),
                (None, Some(d), _) => f == TimetableFilter::DayIs(d),
                (None, None, Some(l)) => f matches TimetableFilter::LecturerLike(p) && p@
                    == like_pattern(l@),
                (None, None, None) => f == TimetableFilter::All,
            },
    {
        if let Some(c) = self.course_code {
            TimetableFilter::CourseIs(c)
        } else if let Some(d) = self.day_of_week {
            TimetableFilter::DayIs(d)
        } else if let Some(l) = self.lecturer {
            TimetableFilter::LecturerLike(contains_pattern(l.as_str()))
        } else {
            TimetableFilter::All
        }
    }
}

} // verus!
