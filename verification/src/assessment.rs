use vstd::prelude::*;

use crate::course::{updated, updated_opt};
use crate::dates::Date;

verus! {

/// A search among assessments.
#[derive(Debug, Clone)]
pub struct GetAssessmentQuery {
    pub course_code: Option<String>,
    pub assessment_type: Option<String>,
}

/// Which assessments a search selects, each list by due date.
#[derive(Debug, Clone)]
pub enum AssessmentFilter {
    /// Assessments of this course.
    CourseIs(String),
    /// Assessments of this type, case aside.
    TypeIs(String),
    /// Every assessment.
    All,
}

impl GetAssessmentQuery {
    /// The selection of a search: by course where one is given, else by
    /// type, else every assessment.
    pub fn filter(self) -> (f: AssessmentFilter)
        ensures
            match (self.course_code, self.assessment_type) {
                (Some(c), _) => f == AssessmentFilter::CourseIs(c),
                (None, Some(t)) => f == AssessmentFilter::TypeIs(t),
                (None, None) => f == AssessmentFilter::All,
            },
    {
        if let Some(c) = self.course_code {
            AssessmentFilter::CourseIs(c)
        } else if let Some(t) = self.assessment_type {
            AssessmentFilter::TypeIs(t)
        } else {
            AssessmentFilter::All
        }
    }
}

/// The descriptive fields of an assessment (its marks and weight aside).
#[derive(Debug, Clone)]
pub struct AssessmentDetails {
    pub course_code: String,
    pub title: String,
    pub assessment_type: String,
    pub due_date: Option<Date>,
    pub description: Option<String>,
}

/// The descriptive fields of an assessment to change; those left `None` keep
/// their value.
#[derive(Debug, Clone)]
pub struct UpdateAssessmentDetails {
    pub course_code: Option<String>,
    pub title: Option<String>,
    pub assessment_type: Option<String>,
    pub due_date: Option<Date>,
    pub description: Option<String>,
}

impl UpdateAssessmentDetails {
    /// The fields after this change.
    pub open spec fn applied_to(self, a: AssessmentDetails) -> AssessmentDetails {
        AssessmentDetails {
            course_code: updated(self.course_code, a.course_code),
            title: updated(self.title, a.title),
            assessment_type: updated(self.assessment_type, a.assessment_type),
            due_date: updated_opt(self.due_date, a.due_date),
            description: updated_opt(self.description, a.description),
        }
    }

    /// A change that changes nothing.
    pub open spec fn is_empty(self) -> bool {
        self.course_code is None && self.title is None && self.assessment_type is None
            && self.due_date is None && self.description is None
    }
}

impl AssessmentDetails {
    /// The fields after `req`: each field given replaces the current one.
    pub fn apply_update(self, req: UpdateAssessmentDetails) -> (a: AssessmentDetails)
        ensures
            a == req.applied_to(self),
            req.course_code matches Some(v) ==> a.course_code == v,
            req.course_code is None ==> a.course_code == self.course_code,
            req.title matches Some(v) ==> a.title == v,
            req.title is None ==> a.title == self.title,
            req.assessment_type matches Some(v) ==> a.assessment_type == v,
            req.assessment_type is None ==> a.assessment_type == self.assessment_type,
            req.due_date matches Some(v) ==> a.due_date == Some(v),
            req.due_date is None ==> a.due_date == self.due_date,
            req.description matches Some(v) ==> a.description == Some(v),
            req.description is None ==> a.description == self.description,
    {
        AssessmentDetails {
            course_code: match req.course_code {
                Some(v) => v,
                None => self.course_code,
            },
            title: match req.title {
                Some(v) => v,
                None => self.title,
            },
            assessment_type: match req.assessment_type {
                Some(v) => v,
                None => self.assessment_type,
            },
            due_date: match req.due_date {
                Some(v) => Some(v),
                None => self.due_date,
            },
            description: match req.description {
                Some(v) => Some(v),
                None => self.description,
            },
        }
    }
}

/// A change that gives no field leaves the assessment as it is; a change
/// made twice does no more than once.
pub proof fn lemma_assessment_update_laws(a: AssessmentDetails, req: UpdateAssessmentDetails)
    ensures
        req.is_empty() ==> req.applied_to(a) == a,
        req.applied_to(req.applied_to(a)) == req.applied_to(a),
{
}

/// Each field that a change gives replaces the assessment's current value, and
/// each field it leaves out keeps its value.
pub proof fn lemma_assessment_update_replaces_given_fields(a: AssessmentDetails, req: UpdateAssessmentDetails)
    ensures
        req.course_code matches Some(v) ==> req.applied_to(a).course_code == v,
        req.course_code is None ==> req.applied_to(a).course_code == a.course_code,
        req.title matches Some(v) ==> req.applied_to(a).title == v,
        req.title is None ==> req.applied_to(a).title == a.title,
        req.assessment_type matches Some(v) ==> req.applied_to(a).assessment_type == v,
        req.assessment_type is None ==> req.applied_to(a).assessment_type == a.assessment_type,
        req.due_date matches Some(v) ==> req.applied_to(a).due_date == Some(v),
        req.due_date is None ==> req.applied_to(a).due_date == a.due_date,
        req.description matches Some(v) ==> req.applied_to(a).description == Some(v),
        req.description is None ==> req.applied_to(a).description == a.description,
{
}

} // verus!
