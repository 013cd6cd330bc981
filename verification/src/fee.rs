use vstd::prelude::*;

use crate::course::{updated, updated_opt};
use crate::dates::Date;
use crate::text::{contains_pattern, like_pattern};

verus! {

/// A search among fees.
#[derive(Debug, Clone)]
pub struct GetFeeQuery {
    pub student_id: Option<u128>,
    pub status: Option<String>,
    pub fee_type: Option<String>,
}

/// Which fees a search selects, each list by due date.
#[derive(Debug, Clone)]
pub enum FeeFilter {
    /// The fees of the student with this record UUID.
    StudentIs(u128),
    /// Fees with this status, case aside.
    StatusIs(String),
    /// Fees whose type matches this pattern, case aside.
    TypeLike(String),
    /// Every fee.
    All,
}

impl GetFeeQuery {
    /// The selection of a search: by student where one is given, else by
    /// status, else by part of the fee type, else every fee.
    pub fn filter(self) -> (f: FeeFilter)
        ensures
            match (self.student_id, self.status, self.fee_type) {
                (Some(s), _, _) => f == FeeFilter::StudentIs(s),
                (None, Some(st), _) => f == FeeFilter::StatusIs(st),
                (None, None, Some(t)) => f matches FeeFilter::TypeLike(p) && p@ == like_pattern(t@),
                (None, None, None) => f == FeeFilter::All,
            },
    {
        if let Some(s) = self.student_id {
            FeeFilter::StudentIs(s)
        } else if let Some(st) = self.status {
            FeeFilter::StatusIs(st)
        } else if let Some(t) = self.fee_type {
            FeeFilter::TypeLike(contains_pattern(t.as_str()))
        } else {
            FeeFilter::All
        }
    }
}


/// The status that a fee is stored with where none is given: `Paid` once the
/// amount paid reaches the amount due, `Partial` once anything is paid,
/// else `Unpaid`.
pub open spec fn derived_fee_status(paid_covers_amount: bool, anything_paid: bool) -> Seq<char> {
    if paid_covers_amount {
        "Paid"@
    } else if anything_paid {
        "Partial"@
    } else {
        "Unpaid"@
    }
}

/// The status to store for a fee: the one given, else the one its payments
/// call for, from whether the amount paid reaches the amount due and whether
/// anything is paid.
pub fn fee_status(given: Option<String>, paid_covers_amount: bool, anything_paid: bool) -> (r: String)
    ensures
        given matches Some(g) ==> r == g,
        given is None ==> r@ == derived_fee_status(paid_covers_amount, anything_paid),
{
    match given {
        Some(g) => g,
        None => if paid_covers_amount {
            "Paid".to_string()
        } else if anything_paid {
            "Partial".to_string()
        } else {
            "Unpaid".to_string()
        },
    }
}

/// The descriptive fields of a fee (its amounts and status aside).
#[derive(Debug, Clone)]
pub struct FeeDetails {
    pub fee_type: String,
    pub due_date: Option<Date>,
    pub payment_date: Option<Date>,
    pub notes: Option<String>,
}

/// The descriptive fields of a fee to change; those left `None` keep their
/// value.
#[derive(Debug, Clone)]
pub struct UpdateFeeDetails {
    pub fee_type: Option<String>,
    pub due_date: Option<Date>,
    pub payment_date: Option<Date>,
    pub notes: Option<String>,
}

impl UpdateFeeDetails {
    /// The fields after this change.
    pub open spec fn applied_to(self, f: FeeDetails) -> FeeDetails {
        FeeDetails {
            fee_type: updated(self.fee_type, f.fee_type),
            due_date: updated_opt(self.due_date, f.due_date),
            payment_date: updated_opt(self.payment_date, f.payment_date),
            notes: updated_opt(self.notes, f.notes),
        }
    }

    /// A change that changes nothing.
    pub open spec fn is_empty(self) -> bool {
        self.fee_type is None && self.due_date is None && self.payment_date is None
            && self.notes is None
    }
}

impl FeeDetails {
    /// The fields after `req`: each field given replaces the current one.
    pub fn apply_update(self, req: UpdateFeeDetails) -> (f: FeeDetails)
        ensures
            f == req.applied_to(self),
            req.fee_type matches Some(v) ==> f.fee_type == v,
            req.fee_type is None ==> f.fee_type == self.fee_type,
            req.due_date matches Some(v) ==> f.due_date == Some(v),
            req.due_date is None ==> f.due_date == self.due_date,
            req.payment_date matches Some(v) ==> f.payment_date == Some(v),
            req.payment_date is None ==> f.payment_date == self.payment_date,
            req.notes matches Some(v) ==> f.notes == Some(v),
            req.notes is None ==> f.notes == self.notes,
    {
        FeeDetails {
            fee_type: match req.fee_type {
                Some(v) => v,
                None => self.fee_type,
            },
            due_date: match req.due_date {
                Some(v) => Some(v),
                None => self.due_date,
            },
            payment_date: match req.payment_date {
                Some(v) => Some(v),
                None => self.payment_date,
            },
            notes: match req.notes {
                Some(v) => Some(v),
                None => self.notes,
            },
        }
    }
}

/// A change that gives no field leaves the fee as it is; a change made twice
/// does no more than once.
pub proof fn lemma_fee_update_laws(f: FeeDetails, req: UpdateFeeDetails)
    ensures
        req.is_empty() ==> req.applied_to(f) == f,
        req.applied_to(req.applied_to(f)) == req.applied_to(f),
{
}

/// Each field that a change gives replaces the fee's current value, and
/// each field it leaves out keeps its value.
pub proof fn lemma_fee_update_replaces_given_fields(f: FeeDetails, req: UpdateFeeDetails)
    ensures
        req.fee_type matches Some(v) ==> req.applied_to(f).fee_type == v,
        req.fee_type is None ==> req.applied_to(f).fee_type == f.fee_type,
        req.due_date matches Some(v) ==> req.applied_to(f).due_date == Some(v),
        req.due_date is None ==> req.applied_to(f).due_date == f.due_date,
        req.payment_date matches Some(v) ==> req.applied_to(f).payment_date == Some(v),
        req.payment_date is None ==> req.applied_to(f).payment_date == f.payment_date,
        req.notes matches Some(v) ==> req.applied_to(f).notes == Some(v),
        req.notes is None ==> req.applied_to(f).notes == f.notes,
{
}

} // verus!
