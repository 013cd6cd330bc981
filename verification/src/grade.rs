use vstd::prelude::*;

use crate::course::updated_opt;

verus! {

/// A search among grades.
#[derive(Debug, Clone)]
pub struct GetGradeQuery {
    pub student_id: Option<u128>,
    pub assessment_id: Option<u128>,
    pub course_code: Option<String>,
}

/// Which grades a search selects, each list by grade UUID.
#[derive(Debug, Clone)]
pub enum GradeFilter {
    /// The grades of the student with this record UUID.
    StudentIs(u128),
    /// The grades of the assessment with this UUID.
    AssessmentIs(u128),
    /// The grades of the assessments of this course.
    CourseIs(String),
    /// Every grade.
    All,
}

impl GetGradeQuery {
    /// The selection of a search: by student where one is given, else by
    /// assessment, else by course, else every grade.
    pub fn filter(self) -> (f: GradeFilter)
        ensures
            match (self.student_id, self.assessment_id, self.course_code) {
                (Some(s), _, _) => f == GradeFilter::StudentIs(s),
                (None, Some(a), _) => f == GradeFilter::AssessmentIs(a),
                (None, None, Some(c)) => f == GradeFilter::CourseIs(c),
                (None, None, None) => f == GradeFilter::All,
            },
    {
        if let Some(s) = self.student_id {
            GradeFilter::StudentIs(s)
        } else if let Some(a) = self.assessment_id {
            GradeFilter::AssessmentIs(a)
        } else if let Some(c) = self.course_code {
            GradeFilter::CourseIs(c)
        } else {
            GradeFilter::All
        }
    }
}

/// The written part of a grade: its letter and feedback.
#[derive(Debug, Clone)]
pub struct GradeRemarks {
    pub grade_letter: Option<String>,
    pub feedback: Option<String>,
}

impl GradeRemarks {
    /// The remarks after a change: each part given replaces the current one.
    pub open spec fn updated_by(self, change: GradeRemarks) -> GradeRemarks {
        GradeRemarks {
            grade_letter: updated_opt(change.grade_letter, self.grade_letter),
            feedback: updated_opt(change.feedback, self.feedback),
        }
    }

    /// The remarks after `change`: each part given replaces the current one.
    pub fn apply_update(self, change: GradeRemarks) -> (r: GradeRemarks)
        ensures
            r == self.updated_by(change),
            change.grade_letter matches Some(v) ==> r.grade_letter == Some(v),
            change.grade_letter is None ==> r.grade_letter == self.grade_letter,
            change.feedback matches Some(v) ==> r.feedback == Some(v),
            change.feedback is None ==> r.feedback == self.feedback,
    {
        GradeRemarks {
            grade_letter: match change.grade_letter {
                Some(v) => Some(v),
                None => self.grade_letter,
            },
            feedback: match change.feedback {
                Some(v) => Some(v),
                None => self.feedback,
            },
        }
    }
}

/// A change that gives no part leaves the remarks as they are; a change made
/// twice does no more than once.
pub proof fn lemma_grade_remarks_update_laws(r: GradeRemarks, change: GradeRemarks)
    ensures
        change.grade_letter is None && change.feedback is None ==> r.updated_by(change) == r,
        r.updated_by(change).updated_by(change) == r.updated_by(change),
{
}

/// Each part that a change gives replaces the current one, and each part it
/// leaves out keeps its value.
pub proof fn lemma_grade_remarks_update_replaces_given_parts(r: GradeRemarks, change: GradeRemarks)
    ensures
        change.grade_letter matches Some(v) ==> r.updated_by(change).grade_letter == Some(v),
        change.grade_letter is None ==> r.updated_by(change).grade_letter == r.grade_letter,
        change.feedback matches Some(v) ==> r.updated_by(change).feedback == Some(v),
        change.feedback is None ==> r.updated_by(change).feedback == r.feedback,
{
}

} // verus!
