use vstd::prelude::*;

use crate::text::{contains_pattern, like_pattern};

verus! {

/// A course.
#[derive(Debug, Clone)]
pub struct Course {
    pub course_code: String,
    pub course_name: String,
    pub lecturer: String,
    pub duration: Option<String>,
    pub description: Option<String>,
}

/// The fields of a new course.
#[derive(Debug, Clone)]
pub struct CreateCourseRequest {
    pub course_code: String,
    pub course_name: String,
    pub lecturer: String,
    pub duration: Option<String>,
    pub description: Option<String>,
}

/// The fields of a course to change; those left `None` keep their value.
#[derive(Debug, Clone)]
pub struct UpdateCourseRequest {
    pub course_name: Option<String>,
    pub lecturer: Option<String>,
    pub duration: Option<String>,
    pub description: Option<String>,
}

/// A search among courses.
#[derive(Debug, Clone)]
pub struct GetCourseQuery {
    pub course_code: Option<String>,
    pub course_name: Option<String>,
    pub lecturer: Option<String>,
}

/// Which courses a search selects.
#[derive(Debug, Clone)]
pub enum CourseFilter {
    /// The course with this code.
    CodeIs(String),
    /// Courses whose name matches this pattern, case aside.
    NameLike(String),
    /// Courses whose lecturer matches this pattern, case aside.
    LecturerLike(String),
    /// Every course, by code.
    All,
}

/// A new value where one is given, else the current one.
pub open spec fn updated<T>(new_value: Option<T>, current: T) -> T {
    match new_value {
        Some(v) => v,
        None => current,
    }
}

/// A new optional value where one is given, else the current one.
pub open spec fn updated_opt<T>(new_value: Option<T>, current: Option<T>) -> Option<T> {
    match new_value {
        Some(v) => Some(v),
        None => current,
    }
}

impl UpdateCourseRequest {
    /// The course after this change.
    pub open spec fn applied_to(self, c: Course) -> Course {
        Course {
            course_code: c.course_code,
            course_name: updated(self.course_name, c.course_name),
            lecturer: updated(self.lecturer, c.lecturer),
            duration: updated_opt(self.duration, c.duration),
            description: updated_opt(self.description, c.description),
        }
    }

    /// A change that changes nothing.
    pub open spec fn is_empty(self) -> bool {
        self.course_name is None && self.lecturer is None && self.duration is None
            && self.description is None
    }
}

impl Course {
    /// The course as a request creates it.
    pub fn from_request(req: CreateCourseRequest) -> (c: Course)
        ensures
            c.course_code == req.course_code,
            c.course_name == req.course_name,
            c.lecturer == req.lecturer,
            c.duration == req.duration,
            c.description == req.description,
    {
        Course {
            course_code: req.course_code,
            course_name: req.course_name,
            lecturer: req.lecturer,
            duration: req.duration,
            description: req.description,
        }
    }

    /// The course after `req`: each field given replaces the current one, the
    /// code stays.
    pub fn apply_update(self, req: UpdateCourseRequest) -> (c: Course)
        ensures
            c == req.applied_to(self),
            c.course_code == self.course_code,
            req.course_name matches Some(v) ==> c.course_name == v,
            req.course_name is None ==> c.course_name == self.course_name,
            req.lecturer matches Some(v) ==> c.lecturer == v,
            req.lecturer is None ==> c.lecturer == self.lecturer,
            req.duration matches Some(v) ==> c.duration == Some(v),
            req.duration is None ==> c.duration == self.duration,
            req.description matches Some(v) ==> c.description == Some(v),
            req.description is None ==> c.description == self.description,
    {
        Course {
            course_code: self.course_code,
            course_name: match req.course_name {
                Some(v) => v,
                None => self.course_name,
            },
            lecturer: match req.lecturer {
                Some(v) => v,
                None => self.lecturer,
            },
            duration: match req.duration {
                Some(v) => Some(v),
                None => self.duration,
            },
            description: match req.description {
                Some(v) => Some(v),
                None => self.description,
            },
        }
    }
}

/// A change that gives no field leaves the course as it is; a change made
/// twice does no more than once.
pub proof fn lemma_course_update_laws(c: Course, req: UpdateCourseRequest)
    ensures
        req.is_empty() ==> req.applied_to(c) == c,
        req.applied_to(req.applied_to(c)) == req.applied_to(c),
{
}

/// Each field that a change gives replaces the course's current value, and
/// each field it leaves out keeps its value; the course code never changes.
pub proof fn lemma_course_update_replaces_given_fields(c: Course, req: UpdateCourseRequest)
    ensures
        req.applied_to(c).course_code == c.course_code,
        req.course_name matches Some(v) ==> req.applied_to(c).course_name == v,
        req.course_name is None ==> req.applied_to(c).course_name == c.course_name,
        req.lecturer matches Some(v) ==> req.applied_to(c).lecturer == v,
        req.lecturer is None ==> req.applied_to(c).lecturer == c.lecturer,
        req.duration matches Some(v) ==> req.applied_to(c).duration == Some(v),
        req.duration is None ==> req.applied_to(c).duration == c.duration,
        req.description matches Some(v) ==> req.applied_to(c).description == Some(v),
        req.description is None ==> req.applied_to(c).description == c.description,
{
}

impl GetCourseQuery {
    /// The selection of a search: by code where one is given, else by part of
    /// the name, else by part of the lecturer's name, else all courses.
    pub fn filter(self) -> (f: CourseFilter)
        ensures
            match (self.course_code, self.course_name, self.lecturer) {
                (Some(code), _, _) => f == CourseFilter::CodeIs(code),
                (None, Some(n), _) => f matches CourseFilter::NameLike(p) && p@ == like_pattern(n@),
                (None, None, Some(l)) => f matches CourseFilter::LecturerLike(p) && p@ == like_pattern(
                    l@,
                ),
                (None, None, None) => f == CourseFilter::All,
            },
    {
        if let Some(code) = self.course_code {
            CourseFilter::CodeIs(code)
        } else if let Some(n) = self.course_name {
            CourseFilter::NameLike(contains_pattern(n.as_str()))
        } else if let Some(l) = self.lecturer {
            CourseFilter::LecturerLike(contains_pattern(l.as_str()))
        } else {
            CourseFilter::All
        }
    }
}

} // verus!
