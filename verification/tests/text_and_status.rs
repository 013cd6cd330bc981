use axum_back::status::{delete_outcome, found_or, insert_failure, ApiError, Status};
use axum_back::text::{
    append_i64, append_u64, contains_pattern, contains_text, join_strings, parse_u16, same_text,
    starts_with_text,
};

#[test]
fn status_codes_are_the_http_codes() {
    assert_eq!(Status::Success.code(), 200);
    assert_eq!(Status::Created.code(), 201);
    assert_eq!(Status::NoContent.code(), 204);
    assert_eq!(Status::BadRequest.code(), 400);
    assert_eq!(Status::Unauthorized.code(), 401);
    assert_eq!(Status::NotFound.code(), 404);
    assert_eq!(Status::Conflict.code(), 409);
    assert_eq!(Status::InternalServerError.code(), 500);
}

#[test]
fn decimal_notation_of_integers() {
    let mut s = String::new();
    append_u64(&mut s, 0);
    assert_eq!(s, "0");
    let mut s = String::from("n=");
    append_u64(&mut s, 1234567890);
    assert_eq!(s, "n=1234567890");
    let mut s = String::new();
    append_i64(&mut s, -42);
    assert_eq!(s, "-42");
    let mut s = String::new();
    append_i64(&mut s, i64::MIN);
    assert_eq!(s, i64::MIN.to_string());
    let mut s = String::new();
    append_i64(&mut s, i64::MAX);
    assert_eq!(s, i64::MAX.to_string());
    let mut s = String::new();
    append_u64(&mut s, u64::MAX);
    assert_eq!(s, u64::MAX.to_string());
}

#[test]
fn reading_u16_agrees_with_std() {
    for text in [
        "3000", "0", "+80", "65535", "65536", "", "+", "-1", "-0", "12a", " 80", "00080", "99999999999",
        "٣",
    ] {
        assert_eq!(parse_u16(text), text.parse::<u16>().ok(), "{:?}", text);
    }
}

#[test]
fn searching_text() {
    assert!(contains_text("duplicate key value violates unique constraint \"x\"", "unique constraint"));
    assert!(!contains_text("connection refused", "unique constraint"));
    assert!(contains_text("abc", ""));
    assert!(!contains_text("", "a"));
    assert!(starts_with_text("Bearer abc", "Bearer "));
    assert!(!starts_with_text("bearer abc", "Bearer "));
    assert!(same_text("Active", "Active"));
    assert!(!same_text("Active", "active"));
}

#[test]
fn search_pattern_and_join() {
    assert_eq!(contains_pattern("John"), "%John%");
    assert_eq!(contains_pattern(""), "%%");
    let names = vec!["Ann".to_string(), "Bob".to_string(), "Cy".to_string()];
    assert_eq!(join_strings(&names, ", "), "Ann, Bob, Cy");
    assert_eq!(join_strings(&vec![], ", "), "");
    assert_eq!(join_strings(&vec!["solo".to_string()], ", "), "solo");
}

#[test]
fn lookups_deletes_and_failed_inserts() {
    assert_eq!(found_or(Some(7), "Course not found").unwrap(), 7);
    let e: ApiError = found_or::<u8>(None, "Course not found").unwrap_err();
    assert_eq!(e.status, Status::NotFound);
    assert_eq!(e.message, "Course not found");

    assert_eq!(delete_outcome(1, "Fee not found").unwrap(), Status::NoContent);
    assert_eq!(delete_outcome(3, "Fee not found").unwrap(), Status::NoContent);
    let e = delete_outcome(0, "Fee not found").unwrap_err();
    assert_eq!((e.status, e.message.as_str()), (Status::NotFound, "Fee not found"));

    let e = insert_failure(
        "error returned from database: duplicate key value violates unique constraint \"students_email_key\"",
        "Student ID or Email already exists",
    );
    assert_eq!(e.status, Status::Conflict);
    assert_eq!(e.message, "Student ID or Email already exists");
    let e = insert_failure("pool timed out", "Email already exists");
    assert_eq!(e.status, Status::InternalServerError);
    assert_eq!(e.message, "pool timed out");
}
