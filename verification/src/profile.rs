use vstd::prelude::*;

use crate::course::updated;
use crate::status::{refused, ApiError, Status};

verus! {

/// What is stored of an administrator's profile.
#[derive(Debug, Clone)]
pub struct AdminProfileRow {
    pub id: u128,
    pub email: String,
    pub full_name: String,
}

/// The fields of a profile to change; those left `None` keep their value.
#[derive(Debug, Clone)]
pub struct UpdateProfileRequest {
    pub full_name: Option<String>,
    pub email: Option<String>,
}

/// A profile change to be made: the new name and e-mail, and whether the
/// e-mail changes (and so must first be found free).
#[derive(Debug, Clone)]
pub struct ProfileUpdate {
    pub full_name: String,
    pub email: String,
    pub email_changed: bool,
}

/// The change that a request makes to the profile stored now (`None` where
/// the administrator is gone: `404 Admin not found`).
pub fn plan_profile_update(existing: Option<AdminProfileRow>, req: UpdateProfileRequest) -> (r: Result<
    ProfileUpdate,
    ApiError,
>)
    ensures
        existing is None ==> refused(r, Status::NotFound, "Admin not found"@),
        existing is Some ==> r is Ok,
        r matches Ok(u) ==> (existing matches Some(e) && u.full_name == updated(
            req.full_name,
            e.full_name,
        ) && u.email == updated(req.email, e.email) && u.email_changed == (u.email@
            != e.email@)),
        r matches Ok(u) ==> (req.email is None ==> !u.email_changed),
{
    let e = match existing {
        Some(e) => e,
        None => return Err(ApiError::new(Status::NotFound, "Admin not found")),
    };
    let full_name = match req.full_name {
        Some(n) => n,
        None => e.full_name,
    };
    let email = match req.email {
        Some(m) => m,
        None => e.email.clone(),
    };
    let email_changed = email != e.email;
    Ok(ProfileUpdate { full_name, email, email_changed })
}

/// Whether a changed e-mail may be taken: `409 Email already in use` where
/// another administrator has it.
pub fn email_availability(taken_by_other: bool) -> (r: Result<(), ApiError>)
    ensures
        taken_by_other ==> refused(r, Status::Conflict, "Email already in use"@),
        !taken_by_other ==> r is Ok,
{
    if taken_by_other {
        Err(ApiError::new(Status::Conflict, "Email already in use"))
    } else {
        Ok(())
    }
}

} // verus!
