use vstd::prelude::*;

use crate::dates::Date;
use crate::status::{refused, ApiError, Status};

verus! {

/// One student's attendance in one course on one day.
#[derive(Debug, Clone)]
pub struct Attendance {
    pub id: u128,
    pub student_id: u128,
    pub course_code: String,
    pub date: Date,
    pub status: bool,
}

/// A mark of attendance: present (`true`) or absent.
#[derive(Debug, Clone)]
pub struct MarkAttendanceRequest {
    pub student_id: u128,
    pub course_code: String,
    pub date: Date,
    pub status: bool,
}

/// A search among attendance records; every condition given applies.
#[derive(Debug, Clone)]
pub struct GetAttendanceQuery {
    pub student_id: Option<u128>,
    pub course_code: Option<String>,
    pub start_date: Option<Date>,
    pub end_date: Option<Date>,
}

/// One condition on the attendance records selected.
#[derive(Debug, Clone, PartialEq, Eq)]
pub enum AttendanceCondition {
    StudentIs(u128),
    CourseIs(String),
    OnOrAfter(Date),
    OnOrBefore(Date),
}

/// The conditions of a search, in the order they are added to the query:
/// student, course, first day, last day, each where given.
pub open spec fn spec_conditions(q: GetAttendanceQuery) -> Seq<AttendanceCondition> {
    let s1: Seq<AttendanceCondition> = match q.student_id {
        Some(s) => seq![AttendanceCondition::StudentIs(s)],
        None => Seq::empty(),
    };
    let s2 = match q.course_code {
        Some(c) => s1.push(AttendanceCondition::CourseIs(c)),
        None => s1,
    };
    let s3 = match q.start_date {
        Some(d) => s2.push(AttendanceCondition::OnOrAfter(d)),
        None => s2,
    };
    match q.end_date {
        Some(d) => s3.push(AttendanceCondition::OnOrBefore(d)),
        None => s3,
    }
}

impl GetAttendanceQuery {
    /// The conditions that the search puts on the records.
    pub fn conditions(self) -> (r: Vec<AttendanceCondition>)
        ensures
            r@ == spec_conditions(self),
    {
        let ghost q = self;
        let mut r: Vec<AttendanceCondition> = Vec::new();
        if let Some(s) = self.student_id {
            r.push(AttendanceCondition::StudentIs(s));
        }
        if let Some(c) = self.course_code {
            r.push(AttendanceCondition::CourseIs(c));
        }
        if let Some(d) = self.start_date {
            r.push(AttendanceCondition::OnOrAfter(d));
        }
        if let Some(d) = self.end_date {
            r.push(AttendanceCondition::OnOrBefore(d));
        }
        assert(r@ =~= spec_conditions(q));
        r
    }
}

// ---------------------------------------------------------------------------
// Marking attendance
// ---------------------------------------------------------------------------

/// The steps of marking attendance: three lookups, then one write.
#[derive(Debug, Clone, Copy, PartialEq, Eq, Structural)]
pub enum MarkAttendanceStep {
    /// Look the student up.
    LookUpStudent,
    /// Look the course up.
    LookUpCourse,
    /// Look up a record of this student, course and day.
    LookUpExisting,
    /// Change the status of the record already there.
    UpdateExisting,
    /// Add a new record.
    InsertNew,
}

impl MarkAttendanceStep {
    /// The step is a lookup, which needs an answer to go on.
    pub open spec fn is_lookup(self) -> bool {
        self == MarkAttendanceStep::LookUpStudent || self == MarkAttendanceStep::LookUpCourse
            || self == MarkAttendanceStep::LookUpExisting
    }

    /// The step after a lookup, given whether it found its row.
    pub open spec fn spec_next(self, found: bool) -> Result<MarkAttendanceStep, (Status, Seq<char>)> {
        match self {
            MarkAttendanceStep::LookUpStudent => if found {
                Ok(MarkAttendanceStep::LookUpCourse)
            } else {
                Err((Status::NotFound, "Student not found"@))
            },
            MarkAttendanceStep::LookUpCourse => if found {
                Ok(MarkAttendanceStep::LookUpExisting)
            } else {
                Err((Status::NotFound, "Course not found"@))
            },
            _ => if found {
                Ok(MarkAttendanceStep::UpdateExisting)
            } else {
                Ok(MarkAttendanceStep::InsertNew)
            },
        }
    }

    /// The step that marking begins with.
    pub fn first() -> (s: MarkAttendanceStep)
        ensures
            s == MarkAttendanceStep::LookUpStudent,
    {
        MarkAttendanceStep::LookUpStudent
    }

    /// The step after a lookup, given whether it found its row: a missing
    /// student or course refuses the mark (`404`); a record already there for
    /// the day is updated, else a new one is added.
    pub fn next(self, found: bool) -> (r: Result<MarkAttendanceStep, ApiError>)
        requires
            self.is_lookup(),
        ensures
            match self.spec_next(found) {
                Ok(s) => r == Ok::<MarkAttendanceStep, ApiError>(s),
                Err((st, m)) => refused(r, st, m),
            },
    {
        match self {
            MarkAttendanceStep::LookUpStudent => if found {
                Ok(MarkAttendanceStep::LookUpCourse)
            } else {
                Err(ApiError::new(Status::NotFound, "Student not found"))
            },
            MarkAttendanceStep::LookUpCourse => if found {
                Ok(MarkAttendanceStep::LookUpExisting)
            } else {
                Err(ApiError::new(Status::NotFound, "Course not found"))
            },
            _ => if found {
                Ok(MarkAttendanceStep::UpdateExisting)
            } else {
                Ok(MarkAttendanceStep::InsertNew)
            },
        }
    }
}

/// The write that marking ends in, given what the three lookups found:
/// none without both the student and the course; with them, an update
/// exactly where the day is already marked, so a day holds at most one mark
/// per student and course.
pub open spec fn marking_outcome(student: bool, course: bool, existing: bool) -> Result<
    MarkAttendanceStep,
    (Status, Seq<char>),
> {
    match MarkAttendanceStep::LookUpStudent.spec_next(student) {
        Err(e) => Err(e),
        Ok(s1) => match s1.spec_next(course) {
            Err(e) => Err(e),
            Ok(s2) => s2.spec_next(existing),
        },
    }
}

/// Marking writes only once the student and the course are found, and then
/// updates the record already there for the day, or adds one where there is
/// none.
pub proof fn lemma_marking_is_an_upsert(student: bool, course: bool, existing: bool)
    ensures
        !student ==> marking_outcome(student, course, existing) == Err::<
            MarkAttendanceStep,
            (Status, Seq<char>),
        >((Status::NotFound, "Student not found"@)),
        student && !course ==> marking_outcome(student, course, existing) == Err::<
            MarkAttendanceStep,
            (Status, Seq<char>),
        >((Status::NotFound, "Course not found"@)),
        student && course && existing ==> marking_outcome(student, course, existing) == Ok::<
            MarkAttendanceStep,
            (Status, Seq<char>),
        >(MarkAttendanceStep::UpdateExisting),
        student && course && !existing ==> marking_outcome(student, course, existing) == Ok::<
            MarkAttendanceStep,
            (Status, Seq<char>),
        >(MarkAttendanceStep::InsertNew),
{
}

/// The table row that a mark of attendance concerns: its student, course and
/// day.
pub open spec fn mark_key(req: MarkAttendanceRequest) -> (u128, Seq<char>, Date) {
    (req.student_id, req.course_code@, req.date)
}

/// The attendance table after the write that marking ended in.  The table
/// keeps, for each student, course and day, the record's UUID and status; an
/// update keeps the UUID, an insert takes `fresh_id`.
pub open spec fn after_write(
    table: Map<(u128, Seq<char>, Date), (u128, bool)>,
    step: MarkAttendanceStep,
    req: MarkAttendanceRequest,
    fresh_id: u128,
) -> Map<(u128, Seq<char>, Date), (u128, bool)> {
    let key = mark_key(req);
    match step {
        MarkAttendanceStep::UpdateExisting => table.insert(key, (table[key].0, req.status)),
        MarkAttendanceStep::InsertNew => table.insert(key, (fresh_id, req.status)),
        _ => table,
    }
}

/// The attendance table after a mark, where the student and the course are
/// found as given: unchanged on a refusal, else the write that the steps
/// chose, with whether the day is already marked read from the table.
pub open spec fn after_mark(
    table: Map<(u128, Seq<char>, Date), (u128, bool)>,
    student_found: bool,
    course_found: bool,
    req: MarkAttendanceRequest,
    fresh_id: u128,
) -> Map<(u128, Seq<char>, Date), (u128, bool)> {
    match marking_outcome(student_found, course_found, table.dom().contains(mark_key(req))) {
        Ok(step) => after_write(table, step, req, fresh_id),
        Err(_) => table,
    }
}

/// Marking is an upsert on the table: a mark leaves one row for its student,
/// course and day, with the status marked, keeping the UUID of a row already
/// there; it touches no other row; and the same mark made again changes
/// nothing, the row keeping its UUID.  A refused mark changes nothing.
pub proof fn lemma_marking_twice_is_marking_once(
    table: Map<(u128, Seq<char>, Date), (u128, bool)>,
    req: MarkAttendanceRequest,
    first_id: u128,
    second_id: u128,
)
    ensures
        ({
            let key = mark_key(req);
            let once = after_mark(table, true, true, req, first_id);
            let twice = after_mark(once, true, true, req, second_id);
            &&& once.dom().contains(key)
            &&& once[key].1 == req.status
            &&& (table.dom().contains(key) ==> once[key].0 == table[key].0)
            &&& (!table.dom().contains(key) ==> once[key].0 == first_id)
            &&& (forall|k| k != key ==> (#[trigger] once.dom().contains(k) <==> table.dom().contains(k)))
            &&& (forall|k| k != key && table.dom().contains(k) ==> #[trigger] once[k] == table[k])
            &&& twice == once
            &&& twice[key].0 == once[key].0
        }),
        forall|c: bool| after_mark(table, false, c, req, first_id) == table,
        after_mark(table, true, false, req, first_id) == table,
{
    let key = mark_key(req);
    let once = after_mark(table, true, true, req, first_id);
    lemma_marking_is_an_upsert(true, true, table.dom().contains(key));
    lemma_marking_is_an_upsert(true, true, true);
    assert(once.dom().contains(key));
    let twice = after_mark(once, true, true, req, second_id);
    assert(twice =~= once);
    assert forall|c: bool| after_mark(table, false, c, req, first_id) == table by {
        lemma_marking_is_an_upsert(false, c, table.dom().contains(key));
    }
    lemma_marking_is_an_upsert(true, false, table.dom().contains(key));
}

} // verus!
