use vstd::prelude::*;

use crate::status::{refused, ApiError, Status};

verus! {

/// The value of a hexadecimal digit, either case.
pub open spec fn hex_digit_value(c: char) -> Option<nat> {
    if '0' <= c && c <= '9' {
        Some((c as int - '0' as int) as nat)
    } else if 'a' <= c && c <= 'f' {
        Some((c as int - 'a' as int + 10) as nat)
    } else if 'A' <= c && c <= 'F' {
        Some((c as int - 'A' as int + 10) as nat)
    } else {
        None
    }
}

/// The number that a string of hexadecimal digits denotes, most significant
/// first; `None` where a character is no hexadecimal digit.
pub open spec fn hex_number(s: Seq<char>) -> Option<nat>
    decreases s.len(),
{
    if s.len() == 0 {
        Some(0)
    } else {
        match (hex_number(s.drop_last()), hex_digit_value(s.last())) {
            (Some(h), Some(d)) => Some(h * 16 + d),
            _ => None,
        }
    }
}

/// The UUID written as 32 hexadecimal digits.
pub open spec fn simple_uuid_value(s: Seq<char>) -> Option<u128> {
    if s.len() == 32 {
        match hex_number(s) {
            Some(n) => Some(n as u128),
            None => None,
        }
    } else {
        None
    }
}

/// The UUID written as 8-4-4-4-12 hexadecimal digits joined by hyphens.
pub open spec fn hyphenated_uuid_value(s: Seq<char>) -> Option<u128> {
    if s.len() == 36 && s[8] == '-' && s[13] == '-' && s[18] == '-' && s[23] == '-' {
        simple_uuid_value(
            s.subrange(0, 8) + s.subrange(9, 13) + s.subrange(14, 18) + s.subrange(19, 23)
                + s.subrange(24, 36),
        )
    } else {
        None
    }
}

/// A character with ASCII capitals made small.
pub open spec fn ascii_lower(c: char) -> char {
    if 'A' <= c && c <= 'Z' {
        ((c as int) + 32) as char
    } else {
        c
    }
}

/// The 128-bit value of the UUID that a text denotes, as `uuid::Uuid::parse_str`
/// reads it: 32 hexadecimal digits; or the hyphenated form, bare, between
/// braces, or after `urn:uuid:` in any case.  `None` where the text is no
/// UUID.
pub open spec fn uuid_text_value(s: Seq<char>) -> Option<u128> {
    if s.len() == 32 {
        simple_uuid_value(s)
    } else if s.len() == 36 {
        hyphenated_uuid_value(s)
    } else if s.len() == 38 && s[0] == '{' && s[37] == '}' {
        hyphenated_uuid_value(s.subrange(1, 37))
    } else if s.len() == 45 && s.subrange(0, 9).map_values(|c: char| ascii_lower(c)) == "urn:uuid:"@ {
        hyphenated_uuid_value(s.subrange(9, 45))
    } else {
        None
    }
}

/// Calls `uuid::Uuid::parse_str` and gives the UUID as its 128-bit value
/// (`Uuid::as_u128`, the 16 bytes read big-end first).  Claimed: the result
/// is `uuid_text_value` of the text, as the crate's parser (`try_parse`,
/// `parse_hyphenated`, `decode_hex32`) reads it.
#[verifier::external_body]
fn uuid_from_text(s: &str) -> (r: Option<u128>)
    ensures
        r == uuid_text_value(s@),
{
    match uuid::Uuid::parse_str(s) {
        Ok(u) => Some(u.as_u128()),
        Err(_) => None,
    }
}

/// How a path names a student: by the UUID of the record where the text is a
/// UUID, else by the student code.
#[derive(Debug, Clone)]
pub enum StudentKey {
    Uuid(u128),
    Code(String),
}

impl StudentKey {
    /// The key for `path`, given what reading it as a UUID gave.
    pub fn from_parsed(parsed: Option<u128>, path: &str) -> (k: StudentKey)
        ensures
            parsed matches Some(u) ==> k == StudentKey::Uuid(u),
            parsed is None ==> (k matches StudentKey::Code(c) && c@ == path@),
    {
        match parsed {
            Some(u) => StudentKey::Uuid(u),
            None => StudentKey::Code(path.to_string()),
        }
    }

    /// The key for the text of a request path.
    pub fn from_path(path: &str) -> (k: StudentKey)
        ensures
            uuid_text_value(path@) matches Some(u) ==> k == StudentKey::Uuid(u),
            uuid_text_value(path@) is None ==> (k matches StudentKey::Code(c) && c@ == path@),
    {
        let parsed = uuid_from_text(path);
        StudentKey::from_parsed(parsed, path)
    }
}

/// The identity that authentication attached to a request.
#[derive(Debug, Clone)]
pub struct AdminId(pub String);

impl AdminId {
    /// The identity from the request's attached value; `401` where none is
    /// attached.
    pub fn from_extension(subject: Option<String>) -> (r: Result<AdminId, Status>)
        ensures
            subject matches Some(s) ==> (r matches Ok(a) && a.0 == s),
            subject is None ==> r == Err::<AdminId, Status>(Status::Unauthorized),
    {
        match subject {
            Some(s) => Ok(AdminId(s)),
            None => Err(Status::Unauthorized),
        }
    }

    /// The administrator's UUID, given what reading the identity as a UUID
    /// gave: `400 Invalid admin ID` where it is none.
    pub fn uuid_from_parsed(parsed: Option<u128>) -> (r: Result<u128, ApiError>)
        ensures
            parsed matches Some(u) ==> r == Ok::<u128, ApiError>(u),
            parsed is None ==> refused(r, Status::BadRequest, "Invalid admin ID"@),
    {
        match parsed {
            Some(u) => Ok(u),
            None => Err(ApiError::new(Status::BadRequest, "Invalid admin ID")),
        }
    }

    /// The administrator's UUID: `400 Invalid admin ID` where the identity is
    /// no UUID.
    pub fn uuid(&self) -> (r: Result<u128, ApiError>)
        ensures
            uuid_text_value(self.0@) matches Some(u) ==> r == Ok::<u128, ApiError>(u),
            uuid_text_value(self.0@) is None ==> refused(r, Status::BadRequest, "Invalid admin ID"@),
    {
        let parsed = uuid_from_text(self.0.as_str());
        AdminId::uuid_from_parsed(parsed)
    }
}

} // verus!
