use vstd::prelude::*;

use crate::course::{updated, updated_opt};
use crate::ids::StudentKey;
use crate::status::{delete_answer, refused, ApiError, Status};
use crate::text::{contains_pattern, like_pattern};

verus! {

/// A student's record.
#[derive(Debug, Clone)]
pub struct Student {
    pub id: u128,
    pub student_id: String,
    pub full_name: String,
    pub email: String,
    pub phone: Option<String>,
    pub course: String,
    pub status: String,
}

/// The fields of a new student.
#[derive(Debug, Clone)]
pub struct CreateStudentRequest {
    pub student_id: String,
    pub full_name: String,
    pub email: String,
    pub phone: Option<String>,
    pub course: String,
    pub status: String,
}

/// The fields of a student to change; those left `None` keep their value.
#[derive(Debug, Clone)]
pub struct UpdateStudentRequest {
    pub full_name: Option<String>,
    pub email: Option<String>,
    pub phone: Option<String>,
    pub course: Option<String>,
    pub status: Option<String>,
}

/// A search among students.
#[derive(Debug, Clone)]
pub struct GetStudentQuery {
    pub id: Option<u128>,
    pub name: Option<String>,
    pub course: Option<String>,
}

/// Which students a search selects.
#[derive(Debug, Clone)]
pub enum StudentFilter {
    /// The student with this record UUID.
    IdIs(u128),
    /// Students whose name matches this pattern, case aside.
    NameLike(String),
    /// Students of this course, case aside.
    CourseIs(String),
    /// Every student, by record UUID.
    All,
}

impl UpdateStudentRequest {
    /// The student after this change.
    pub open spec fn applied_to(self, s: Student) -> Student {
        Student {
            id: s.id,
            student_id: s.student_id,
            full_name: updated(self.full_name, s.full_name),
            email: updated(self.email, s.email),
            phone: updated_opt(self.phone, s.phone),
            course: updated(self.course, s.course),
            status: updated(self.status, s.status),
        }
    }

    /// A change that changes nothing.
    pub open spec fn is_empty(self) -> bool {
        self.full_name is None && self.email is None && self.phone is None && self.course is None
            && self.status is None
    }
}

impl Student {
    /// The record that a request creates under the UUID `id`.
    pub fn from_request(id: u128, req: CreateStudentRequest) -> (s: Student)
        ensures
            s.id == id,
            s.student_id == req.student_id,
            s.full_name == req.full_name,
            s.email == req.email,
            s.phone == req.phone,
            s.course == req.course,
            s.status == req.status,
    {
        Student {
            id,
            student_id: req.student_id,
            full_name: req.full_name,
            email: req.email,
            phone: req.phone,
            course: req.course,
            status: req.status,
        }
    }

    /// The record after `req`: each field given replaces the current one;
    /// the UUID and the student code stay.
    pub fn apply_update(self, req: UpdateStudentRequest) -> (s: Student)
        ensures
            s == req.applied_to(self),
            s.id == self.id,
            s.student_id == self.student_id,
            req.full_name matches Some(v) ==> s.full_name == v,
            req.full_name is None ==> s.full_name == self.full_name,
            req.email matches Some(v) ==> s.email == v,
            req.email is None ==> s.email == self.email,
            req.course matches Some(v) ==> s.course == v,
            req.course is None ==> s.course == self.course,
            req.status matches Some(v) ==> s.status == v,
            req.status is None ==> s.status == self.status,
            req.phone matches Some(v) ==> s.phone == Some(v),
            req.phone is None ==> s.phone == self.phone,
    {
        Student {
            id: self.id,
            student_id: self.student_id,
            full_name: match req.full_name {
                Some(v) => v,
                None => self.full_name,
            },
            email: match req.email {
                Some(v) => v,
                None => self.email,
            },
            phone: match req.phone {
                Some(v) => Some(v),
                None => self.phone,
            },
            course: match req.course {
                Some(v) => v,
                None => self.course,
            },
            status: match req.status {
                Some(v) => v,
                None => self.status,
            },
        }
    }
}

/// A change that gives no field leaves the record as it is; a change made
/// twice does no more than once; the record keeps its identity.
pub proof fn lemma_student_update_laws(s: Student, req: UpdateStudentRequest)
    ensures
        req.is_empty() ==> req.applied_to(s) == s,
        req.applied_to(req.applied_to(s)) == req.applied_to(s),
        req.applied_to(s).id == s.id && req.applied_to(s).student_id == s.student_id,
{
}

/// Each field that a change gives replaces the record's current value, and
/// each field it leaves out keeps its value; the UUID and the student code never
/// change.
pub proof fn lemma_student_update_replaces_given_fields(s: Student, req: UpdateStudentRequest)
    ensures
        req.applied_to(s).id == s.id,
        req.applied_to(s).student_id == s.student_id,
        req.full_name matches Some(v) ==> req.applied_to(s).full_name == v,
        req.full_name is None ==> req.applied_to(s).full_name == s.full_name,
        req.email matches Some(v) ==> req.applied_to(s).email == v,
        req.email is None ==> req.applied_to(s).email == s.email,
        req.course matches Some(v) ==> req.applied_to(s).course == v,
        req.course is None ==> req.applied_to(s).course == s.course,
        req.status matches Some(v) ==> req.applied_to(s).status == v,
        req.status is None ==> req.applied_to(s).status == s.status,
        req.phone matches Some(v) ==> req.applied_to(s).phone == Some(v),
        req.phone is None ==> req.applied_to(s).phone == s.phone,
{
}

impl GetStudentQuery {
    /// The selection of a search: by record UUID where one is given, else by
    /// part of the name, else by course, else all students.
    pub fn filter(self) -> (f: StudentFilter)
        ensures
            match (self.id, self.name, self.course) {
                (Some(id), _, _) => f == StudentFilter::IdIs(id),
                (None, Some(n), _) => f matches StudentFilter::NameLike(p) && p@ == like_pattern(n@),
                (None, None, Some(c)) => f == StudentFilter::CourseIs(c),
                (None, None, None) => f == StudentFilter::All,
            },
    {
        if let Some(id) = self.id {
            StudentFilter::IdIs(id)
        } else if let Some(n) = self.name {
            StudentFilter::NameLike(contains_pattern(n.as_str()))
        } else if let Some(c) = self.course {
            StudentFilter::CourseIs(c)
        } else {
            StudentFilter::All
        }
    }
}

/// A path key names the record with UUID `id`: its UUID where the key is a
/// UUID, its student code where the key is a code.
pub open spec fn key_names(k: StudentKey, id: u128, s: Student) -> bool {
    match k {
        StudentKey::Uuid(u) => id == u,
        StudentKey::Code(c) => s.student_id@ == c@,
    }
}

/// The UUIDs of the records, in a table of students by UUID, that a key names:
/// the rows that a delete by that key removes.
pub open spec fn named_by(table: Map<u128, Student>, k: StudentKey) -> Set<u128> {
    table.dom().filter(|id: u128| key_names(k, id, table[id]))
}

/// The table of students after a delete by `k`.
pub open spec fn after_delete(table: Map<u128, Student>, k: StudentKey) -> Map<u128, Student> {
    table.remove_keys(named_by(table, k))
}

/// A delete leaves no record that its key names and every other record as it
/// was; so the same delete made again removes no row, which `delete_outcome`
/// answers with `404 Student not found`.
pub proof fn lemma_second_delete_finds_nothing(table: Map<u128, Student>, k: StudentKey)
    ensures
        named_by(after_delete(table, k), k) == Set::<u128>::empty(),
        named_by(after_delete(table, k), k).len() == 0,
        forall|r: Result<Status, ApiError>|
            delete_answer(named_by(after_delete(table, k), k).len() as int, "Student not found"@, r)
                ==> #[trigger] refused(r, Status::NotFound, "Student not found"@),
        forall|id: u128|
            #[trigger] after_delete(table, k).dom().contains(id) <==> (table.dom().contains(id)
                && !key_names(k, id, table[id])),
        forall|id: u128|
            after_delete(table, k).dom().contains(id) ==> #[trigger] after_delete(table, k)[id]
                == table[id],
{
    let after = after_delete(table, k);
    assert(named_by(after, k) =~= Set::<u128>::empty());
}

} // verus!
